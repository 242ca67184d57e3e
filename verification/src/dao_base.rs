use vstd::prelude::*;

verus! {

/// The basic information of Dao as a whole, for display
#[derive(Clone, Debug)]
pub struct DisplayDaoBaseInfo {
    pub owner: String,
    pub name: String,
    pub logo: String,
    pub desc: String,
}

/// Store basic information about Dao
/// owner:the contract's manager
/// name:the name of dao
/// logo:the logo of dao
/// desc:the desc of dao
pub struct DaoBase {
    owner: String,
    name: String,
    logo: String,
    desc: String,
}

impl DaoBase {
    pub closed spec fn spec_owner(&self) -> Seq<char> {
        self.owner@
    }

    pub closed spec fn spec_name(&self) -> Seq<char> {
        self.name@
    }

    pub closed spec fn spec_logo(&self) -> Seq<char> {
        self.logo@
    }

    pub closed spec fn spec_desc(&self) -> Seq<char> {
        self.desc@
    }

    /// The dao of `signer`, with no name, logo or description yet.
    pub fn new(signer: String) -> (r: Self)
        ensures
            r.spec_owner() == signer@,
            r.spec_name() == Seq::<char>::empty(),
            r.spec_logo() == Seq::<char>::empty(),
            r.spec_desc() == Seq::<char>::empty(),
    {
        DaoBase { owner: signer, name: String::new(), logo: String::new(), desc: String::new() }
    }

    /// init the dao base
    /// name:the name of dao
    /// logo:the logo of dao
    /// desc:the desc of dao
    pub fn init_base(&mut self, name: String, logo: String, desc: String)
        ensures
            final(self).spec_name() == name@,
            final(self).spec_logo() == logo@,
            final(self).spec_desc() == desc@,
            final(self).spec_owner() == old(self).spec_owner(),
    {
        self.set_name(name);
        self.set_logo(logo);
        self.set_desc(desc);
    }

    /// set the dao's name
    pub fn set_name(&mut self, name: String)
        ensures
            final(self).spec_name() == name@,
            final(self).spec_logo() == old(self).spec_logo(),
            final(self).spec_desc() == old(self).spec_desc(),
            final(self).spec_owner() == old(self).spec_owner(),
    {
        self.name = name;
    }

    /// get the dao's name
    pub fn get_name(&self) -> (r: String)
        ensures
            r@ == self.spec_name(),
    {
        self.name.clone()
    }

    /// set the dao's logo
    pub fn set_logo(&mut self, logo: String)
        ensures
            final(self).spec_logo() == logo@,
            final(self).spec_name() == old(self).spec_name(),
            final(self).spec_desc() == old(self).spec_desc(),
            final(self).spec_owner() == old(self).spec_owner(),
    {
        self.logo = logo;
    }

    /// get the dao's logo
    pub fn get_logo(&self) -> (r: String)
        ensures
            r@ == self.spec_logo(),
    {
        self.logo.clone()
    }

    /// set the dao's desc
    pub fn set_desc(&mut self, desc: String)
        ensures
            final(self).spec_desc() == desc@,
            final(self).spec_name() == old(self).spec_name(),
            final(self).spec_logo() == old(self).spec_logo(),
            final(self).spec_owner() == old(self).spec_owner(),
    {
        self.desc = desc;
    }

    /// get the dao's desc
    pub fn get_desc(&self) -> (r: String)
        ensures
            r@ == self.spec_desc(),
    {
        self.desc.clone()
    }

    /// get the base information as a whole
    pub fn get_base_info(&self) -> (r: DisplayDaoBaseInfo)
        ensures
            r.owner@ == self.spec_owner(),
            r.name@ == self.spec_name(),
            r.logo@ == self.spec_logo(),
            r.desc@ == self.spec_desc(),
    {
        DisplayDaoBaseInfo {
            owner: self.owner.clone(),
            name: self.name.clone(),
            logo: self.logo.clone(),
            desc: self.desc.clone(),
        }
    }
}

} // verus!
