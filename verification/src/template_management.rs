use vstd::prelude::*;

verus! {

/// A flag kept for the templates' management.
pub struct TemplateManagement {
    value: bool,
}

impl TemplateManagement {
    pub closed spec fn spec_value(&self) -> bool {
        self.value
    }

    /// Start with the flag set to `init_value`.
    pub fn new(init_value: bool) -> (r: Self)
        ensures
            r.spec_value() == init_value,
    {
        TemplateManagement { value: init_value }
    }
}

} // verus!
