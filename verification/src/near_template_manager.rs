use vstd::prelude::*;

use crate::keyed_map::KeyedMap;

verus! {

/// store the template info
/// id:the id of template
/// owner:the owner of the template
/// name:the name of the template
/// dao_manager_code_hash:the hash of the dao manager
/// components:the code hashes of the template's components, by component name
pub struct DAOTemplate {
    pub id: u64,
    pub owner: String,
    pub name: String,
    pub dao_manager_code_hash: String,
    pub components: KeyedMap<String, String>,
}

impl DAOTemplate {
    pub open spec fn wf(&self) -> bool {
        self.components.wf()
    }

    /// The components' code hashes, by component name.
    pub open spec fn component_map(&self) -> Map<Seq<char>, Seq<char>> {
        self.components.as_map().map_values(|v: String| v@)
    }
}

/// This controls the template type of Dao
/// owner:the manager of the contract
/// template_index:the length of template
/// template_map:the templates, by index
pub struct TemplateManager {
    owner: String,
    template_index: u64,
    template_map: Vec<DAOTemplate>,
}

impl TemplateManager {
    pub closed spec fn wf(&self) -> bool {
        &&& self.template_index == self.template_map@.len()
        &&& forall|i: int| 0 <= i < self.template_map@.len() ==> #[trigger] self.template_map@[i].wf()
        &&& forall|i: int| 0 <= i < self.template_map@.len() ==> #[trigger] self.template_map@[i].id == i
    }

    pub closed spec fn spec_owner(&self) -> Seq<char> {
        self.owner@
    }

    pub closed spec fn templates(&self) -> Seq<DAOTemplate> {
        self.template_map@
    }

    pub fn new(controller: String) -> (r: Self)
        ensures
            r.wf(),
            r.spec_owner() == controller@,
            r.templates() == Seq::<DAOTemplate>::empty(),
    {
        TemplateManager { owner: controller, template_index: 0, template_map: Vec::new() }
    }

    /// add a template, owned by the signer, under the next index
    /// name:the name of template
    /// dao_manager_code_hash:the hash of the dao manager
    /// base_hash .. vault_hash:the code hashes of the components
    pub fn add_template(
        &mut self,
        signer: String,
        name: String,
        dao_manager_code_hash: String,
        base_hash: String,
        erc20_hash: String,
        user_hash: String,
        setting_hash: String,
        vault_hash: String,
    ) -> (r: bool)
        requires
            old(self).wf(),
            old(self).templates().len() < u64::MAX,
        ensures
            r,
            final(self).wf(),
            final(self).spec_owner() == old(self).spec_owner(),
            final(self).templates().drop_last() == old(self).templates(),
            final(self).templates().len() == old(self).templates().len() + 1,
            ({
                let t = final(self).templates().last();
                &&& t.id == old(self).templates().len()
                &&& t.owner@ == signer@
                &&& t.name@ == name@
                &&& t.dao_manager_code_hash@ == dao_manager_code_hash@
                &&& t.component_map() == map![
                    "BASE"@ => base_hash@,
                    "ERC20"@ => erc20_hash@,
                    "USER"@ => user_hash@,
                    "SETTING"@ => setting_hash@,
                    "VAULT"@ => vault_hash@
                ]
            }),
    {
        let ghost (bh, eh, uh, sh, vh) = (base_hash@, erc20_hash@, user_hash@, setting_hash@, vault_hash@);
        let mut components: KeyedMap<String, String> = KeyedMap::new();
        components.insert(String::from_str("BASE"), base_hash);
        components.insert(String::from_str("ERC20"), erc20_hash);
        components.insert(String::from_str("USER"), user_hash);
        components.insert(String::from_str("SETTING"), setting_hash);
        components.insert(String::from_str("VAULT"), vault_hash);
        let from = signer;
        let index = self.template_index;
        let t = DAOTemplate { id: index, owner: from, name, dao_manager_code_hash, components };
        proof {
            assert(t.component_map() =~= map![
                "BASE"@ => bh,
                "ERC20"@ => eh,
                "USER"@ => uh,
                "SETTING"@ => sh,
                "VAULT"@ => vh
            ]);
        }
        self.template_map.push(t);
        self.template_index = index + 1;
        proof {
            assert(self.templates().drop_last() =~= old(self).templates());
        }
        true
    }

    /// show all template: the whole map, by index
    pub fn list_templates(self) -> (r: Vec<DAOTemplate>)
        ensures
            r@ == self.templates(),
    {
        self.template_map
    }

    /// the template at an existing index
    pub fn query_template_by_index(&self, index: u64) -> (r: DAOTemplate)
        requires
            self.wf(),
            index < self.templates().len(),
        ensures
            r.wf(),
            r.id == self.templates()[index as int].id,
            r.owner@ == self.templates()[index as int].owner@,
            r.name@ == self.templates()[index as int].name@,
            r.dao_manager_code_hash@ == self.templates()[index as int].dao_manager_code_hash@,
            r.components.key_seq() == self.templates()[index as int].components.key_seq(),
            r.components.as_map().map_values(|v: String| v@) == self.templates()[index as int].component_map(),
    {
        let n = self.template_map.len();
        assert(index < n);
        let t = &self.template_map[index as usize];
        assert(self.template_map@[index as int].wf());
        let c = copy_string_map(&t.components);
        DAOTemplate {
            id: t.id,
            owner: t.owner.clone(),
            name: t.name.clone(),
            dao_manager_code_hash: t.dao_manager_code_hash.clone(),
            components: c,
        }
    }
}

/// A copy of a map of names to names.
pub fn copy_string_map(m: &KeyedMap<String, String>) -> (r: KeyedMap<String, String>)
    requires
        m.wf(),
    ensures
        r.wf(),
        r.key_seq() == m.key_seq(),
        r.as_map().map_values(|v: String| v@) == m.as_map().map_values(|v: String| v@),
{
    let mut out: KeyedMap<String, String> = KeyedMap::new();
    let n = m.len();
    for i in 0..n
        invariant
            m.wf(),
            n == m.key_seq().len(),
            out.wf(),
            out.key_seq() == m.key_seq().subrange(0, i as int),
            forall|k: Seq<char>| #[trigger] out.as_map().contains_key(k) ==> out.as_map()[k]@ == m.as_map()[k]@,
    {
        proof {
            m.lemma_wf_lens();
            m.lemma_index(i as int);
        }
        let k = m.key_at(i).clone();
        let v = m.value_at(i).clone();
        proof {
            assert(!out.has(k@)) by {
                if out.has(k@) {
                    let j = choose|j: int| 0 <= j < out.key_seq().len() && out.key_seq()[j] == k@;
                    m.lemma_distinct(j, i as int);
                }
            }
        }
        out.insert(k, v);
        proof {
            assert(out.key_seq() =~= m.key_seq().subrange(0, i + 1));
        }
    }
    proof {
        assert(m.key_seq().subrange(0, n as int) =~= m.key_seq());
        assert(out.as_map().map_values(|v: String| v@) =~= m.as_map().map_values(|v: String| v@));
    }
    out
}

impl TemplateManager {
    /// The template at each index carries that index as its id.
    pub proof fn law_template_ids(&self, i: int)
        requires
            self.wf(),
            0 <= i < self.templates().len(),
        ensures
            self.templates()[i].id == i,
    {
    }
}

} // verus!
