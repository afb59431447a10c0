use vstd::prelude::*;
use vstd::string::StringExecFns;

verus! {

/// Options of a style computation: the URL of the document.
pub struct StylesOptions {
    pub url: String,
}

impl StylesOptions {
    /// Options for the document at `url`.
    pub fn new(url: String) -> (r: StylesOptions)
        ensures
            r.url == url,
    {
        StylesOptions { url }
    }
}

/// The result of a style computation: the rendered tree and the errors met.
pub struct StylesOutput {
    pub errors: String,
    pub render_tree: String,
}

impl StylesOutput {
    /// The render tree, a line feed, then the errors.
    pub fn to_string(&self) -> (r: String)
        ensures
            r@ == self.render_tree@ + seq!['\n'] + self.errors@,
    {
        let out = self.render_tree.clone();
        let mut out = out.concat("\n");
        proof {
            reveal_strlit("\n");
        }
        out.append(self.errors.as_str());
        out
    }

    /// A copy of the rendered tree.
    pub fn render_tree(&self) -> (r: String)
        ensures
            r@ == self.render_tree@,
    {
        self.render_tree.clone()
    }

    /// A copy of the errors.
    pub fn errors(&self) -> (r: String)
        ensures
            r@ == self.errors@,
    {
        self.errors.clone()
    }
}

} // verus!
