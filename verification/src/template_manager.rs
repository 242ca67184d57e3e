use vstd::prelude::*;

use crate::account::{AccountId, CodeHash};
use crate::keyed_map::KeyedMap;

verus! {

/// store the template info
/// id:the id of template
/// owner:the owner of the template
/// name:the name of the template
/// dao_manager_code_hash:the hash of the dao manager
/// components:the code hashes of the template's components, by component name in
/// name order
pub struct DAOTemplate {
    pub id: u64,
    pub owner: AccountId,
    pub name: String,
    pub dao_manager_code_hash: CodeHash,
    pub components: KeyedMap<String, CodeHash>,
}

impl DAOTemplate {
    pub open spec fn wf(&self) -> bool {
        self.components.wf()
    }

    /// The template holds the same data as `other`.
    pub open spec fn same_as(&self, other: &DAOTemplate) -> bool {
        &&& self.id == other.id
        &&& self.owner == other.owner
        &&& self.name@ == other.name@
        &&& self.dao_manager_code_hash == other.dao_manager_code_hash
        &&& self.components.key_seq() == other.components.key_seq()
        &&& self.components.val_seq() == other.components.val_seq()
    }

    pub fn duplicate(&self) -> (r: DAOTemplate)
        requires
            self.wf(),
        ensures
            r.wf(),
            r.same_as(self),
    {
        DAOTemplate {
            id: self.id,
            owner: self.owner,
            name: self.name.clone(),
            dao_manager_code_hash: self.dao_manager_code_hash,
            components: self.components.duplicate(),
        }
    }
}

/// Emitted when a template is added.
#[derive(Clone, Copy, Debug, PartialEq, Eq, Structural)]
pub struct AddTemplate {
    pub index: u64,
    pub owner: Option<AccountId>,
}

/// The component names a template records, in name order.
pub open spec fn component_names() -> Seq<Seq<char>> {
    seq!["BASE"@, "ERC20"@, "SETTING"@, "USER"@, "VAULT"@]
}

/// This controls the template type of Dao
/// owner:the manager of the contract
/// template_index:the length of template
/// template_map:map of index and DAOTemplate
pub struct TemplateManager {
    owner: AccountId,
    template_index: u64,
    template_map: Vec<DAOTemplate>,
    events: Vec<AddTemplate>,
}

impl TemplateManager {
    pub closed spec fn spec_owner(&self) -> AccountId {
        self.owner
    }

    pub closed spec fn templates(&self) -> Seq<DAOTemplate> {
        self.template_map@
    }

    pub closed spec fn event_log(&self) -> Seq<AddTemplate> {
        self.events@
    }

    pub closed spec fn wf(&self) -> bool {
        &&& self.template_index == self.template_map@.len()
        &&& forall|i: int| 0 <= i < self.template_map@.len() ==> #[trigger] self.template_map@[i].wf()
        &&& forall|i: int| 0 <= i < self.template_map@.len() ==> #[trigger] self.template_map@[i].id == i
    }

    pub fn new(controller: AccountId) -> (r: Self)
        ensures
            r.wf(),
            r.spec_owner() == controller,
            r.templates() == Seq::<DAOTemplate>::empty(),
            r.event_log() == Seq::<AddTemplate>::empty(),
    {
        TemplateManager {
            owner: controller,
            template_index: 0,
            template_map: Vec::new(),
            events: Vec::new(),
        }
    }

    /// add a template, owned by the caller, under the next index
    /// name:the name of template
    /// dao_manager_code_hash:the hash of the dao manager
    /// base_hash .. vault_hash:the code hashes of the components
    pub fn add_template(
        &mut self,
        caller: AccountId,
        name: String,
        dao_manager_code_hash: CodeHash,
        base_hash: CodeHash,
        erc20_hash: CodeHash,
        user_hash: CodeHash,
        setting_hash: CodeHash,
        vault_hash: CodeHash,
    ) -> (r: bool)
        requires
            old(self).wf(),
            old(self).templates().len() < u64::MAX,
        ensures
            r,
            final(self).wf(),
            final(self).spec_owner() == old(self).spec_owner(),
            final(self).templates().len() == old(self).templates().len() + 1,
            forall|i: int| 0 <= i < old(self).templates().len() ==> #[trigger] final(self).templates()[i]
                == old(self).templates()[i],
            ({
                let t = final(self).templates().last();
                &&& t.id == old(self).templates().len()
                &&& t.owner == caller
                &&& t.name@ == name@
                &&& t.dao_manager_code_hash == dao_manager_code_hash
                &&& t.components.key_seq() == component_names()
                &&& t.components.val_seq() == seq![base_hash, erc20_hash, setting_hash, user_hash, vault_hash]
            }),
            final(self).event_log() == old(self).event_log().push(
                AddTemplate { index: old(self).templates().len() as u64, owner: Some(caller) },
            ),
    {
        proof {
            reveal_strlit("BASE");
            reveal_strlit("ERC20");
            reveal_strlit("SETTING");
            reveal_strlit("USER");
            reveal_strlit("VAULT");
            assert("BASE"@ =~= seq!['B', 'A', 'S', 'E']);
            assert("ERC20"@ =~= seq!['E', 'R', 'C', '2', '0']);
            assert("SETTING"@ =~= seq!['S', 'E', 'T', 'T', 'I', 'N', 'G']);
            assert("USER"@ =~= seq!['U', 'S', 'E', 'R']);
            assert("VAULT"@ =~= seq!['V', 'A', 'U', 'L', 'T']);
        }
        let mut components: KeyedMap<String, CodeHash> = KeyedMap::new();
        components.insert(String::from_str("BASE"), base_hash);
        assert(components.key_seq() =~= seq!["BASE"@]);
        assert(!components.has("ERC20"@)) by {
            assert(components.key_seq()[0] != "ERC20"@);
        }
        components.insert(String::from_str("ERC20"), erc20_hash);
        assert(components.key_seq() =~= seq!["BASE"@, "ERC20"@]);
        assert(!components.has("SETTING"@)) by {
            assert(components.key_seq()[0] != "SETTING"@);
            assert(components.key_seq()[1] != "SETTING"@);
        }
        components.insert(String::from_str("SETTING"), setting_hash);
        assert(components.key_seq() =~= seq!["BASE"@, "ERC20"@, "SETTING"@]);
        assert(!components.has("USER"@)) by {
            assert(components.key_seq()[0] != "USER"@);
            assert(components.key_seq()[1] != "USER"@);
            assert(components.key_seq()[2] != "USER"@);
        }
        components.insert(String::from_str("USER"), user_hash);
        assert(components.key_seq() =~= seq!["BASE"@, "ERC20"@, "SETTING"@, "USER"@]);
        assert(!components.has("VAULT"@)) by {
            assert(components.key_seq()[0] != "VAULT"@);
            assert(components.key_seq()[1] != "VAULT"@);
            assert(components.key_seq()[2] != "VAULT"@);
            assert(components.key_seq()[3] != "VAULT"@);
        }
        components.insert(String::from_str("VAULT"), vault_hash);
        assert(components.key_seq() =~= component_names());
        assert(components.val_seq() =~= seq![base_hash, erc20_hash, setting_hash, user_hash, vault_hash]);
        let index = self.template_index;
        self.template_map.push(
            DAOTemplate { id: index, owner: caller, name, dao_manager_code_hash, components },
        );
        self.events.push(AddTemplate { index, owner: Some(caller) });
        self.template_index = index + 1;
        true
    }

    /// show all template
    pub fn list_templates(&self) -> (r: Vec<DAOTemplate>)
        requires
            self.wf(),
        ensures
            r@.len() == self.templates().len(),
            forall|i: int| #![trigger r@[i]] 0 <= i < r@.len() ==> r@[i].same_as(&self.templates()[i]) && r@[i].wf(),
    {
        let mut out: Vec<DAOTemplate> = Vec::new();
        let n = self.template_map.len();
        for i in 0..n
            invariant
                self.wf(),
                n == self.template_map@.len(),
                out@.len() == i,
                forall|j: int| #![trigger out@[j]] 0 <= j < i ==> out@[j].same_as(&self.template_map@[j]) && out@[j].wf(),
        {
            out.push(self.template_map[i].duplicate());
        }
        out
    }

    /// get a template by index; the index must name an added template
    pub fn query_template_by_index(&self, index: u64) -> (r: DAOTemplate)
        requires
            self.wf(),
            index < self.templates().len(),
        ensures
            r.same_as(&self.templates()[index as int]),
            r.wf(),
    {
        let n = self.template_map.len();
        assert(index < n);
        self.template_map[index as usize].duplicate()
    }

    /// The events emitted so far, oldest first.
    pub fn recorded_events(&self) -> (r: Vec<AddTemplate>)
        ensures
            r@ == self.event_log(),
    {
        let mut out: Vec<AddTemplate> = Vec::new();
        let n = self.events.len();
        for i in 0..n
            invariant
                n == self.events@.len(),
                out@ == self.events@.subrange(0, i as int),
        {
            out.push(self.events[i]);
            assert(out@ =~= self.events@.subrange(0, i + 1));
        }
        assert(out@ =~= self.events@);
        out
    }
}

impl TemplateManager {
    /// The template at each index carries that index as its id.
    pub proof fn law_template_ids(&self, i: int)
        requires
            self.wf(),
            0 <= i < self.templates().len(),
        ensures
            self.templates()[i].id == i,
    {
    }
}

} // verus!
