use vstd::prelude::*;

verus! {

/// The settings a window is built from.
#[allow(non_camel_case_types)]
#[derive(Clone)]
pub struct ROT_WindowBuilder {
    title_bar: String,
}

impl ROT_WindowBuilder {
    pub closed spec fn title(&self) -> Seq<char> {
        self.title_bar@
    }

    pub fn new(title_bar: String) -> (r: ROT_WindowBuilder)
        ensures
            r.title() == title_bar@,
    {
        ROT_WindowBuilder { title_bar }
    }

    pub fn get_title_bar(&self) -> (r: String)
        ensures
            r@ == self.title(),
    {
        self.title_bar.clone()
    }
}

} // verus!
