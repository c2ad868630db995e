//! Options for hosts that run generated code in a JavaScript runtime.

use vstd::prelude::*;

verus! {

/// How a piece of JavaScript is to be executed.
#[derive(Debug, Clone, PartialEq, Eq, PartialOrd, Ord, Hash)]
pub struct JsExecOptions {
    /// Cache the result of the execution.
    ///
    /// If `true`, the result of the execution is stored and used again when
    /// the source code is identical.
    pub cache: bool,
    /// If true, the code is treated as an ES module.
    pub module: bool,
    /// The arguments passed to the JS runtime process.
    pub args: Vec<String>,
}

impl JsExecOptions {
    /// The same options with caching switched off: what a cached execution
    /// runs when the cache holds no result yet.
    pub fn without_cache(self) -> (r: JsExecOptions)
        ensures
            r == (JsExecOptions { cache: false, ..self }),
    {
        JsExecOptions { cache: false, ..self }
    }
}

impl Default for JsExecOptions {
    fn default() -> (r: Self)
        ensures
            !r.cache,
            !r.module,
            r.args@ == Seq::<String>::empty(),
    {
        JsExecOptions { cache: false, module: false, args: Vec::new() }
    }
}

} // verus!
