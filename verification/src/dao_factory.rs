use vstd::prelude::*;

use crate::keyed_map::KeyedMap;

verus! {

/// What the template account is funded with when it is created.
pub const TEMPLATE_INIT_BALANCE: u128 = 1000 * 1_000_000_000_000;

/// What each dao account is funded with when it is created.
pub const DAO_INIT_BALANCE: u128 = 1000 * 1_000_000_000_000;

/// Initialization information of Dao
/// id:the index of the dao
/// owner:the manager of the dao
/// size:the size of the dao
/// name:the name of the dao
/// logo:the logo of the dao
/// desc:the introduce of the dao
/// dao_manager_addr:the address of the dao
pub struct DAOInstance {
    pub id: u64,
    pub owner: String,
    pub size: u64,
    pub name: String,
    pub logo: String,
    pub desc: String,
    pub dao_manager_addr: String,
}

/// The plain values of a dao instance.
pub struct InstanceView {
    pub id: u64,
    pub owner: Seq<char>,
    pub size: u64,
    pub name: Seq<char>,
    pub logo: Seq<char>,
    pub desc: Seq<char>,
    pub dao_manager_addr: Seq<char>,
}

impl DAOInstance {
    pub open spec fn view(&self) -> InstanceView {
        InstanceView {
            id: self.id,
            owner: self.owner@,
            size: self.size,
            name: self.name@,
            logo: self.logo@,
            desc: self.desc@,
            dao_manager_addr: self.dao_manager_addr@,
        }
    }

    /// A copy of the instance.
    pub fn copy(&self) -> (r: DAOInstance)
        ensures
            r.view() == self.view(),
    {
        DAOInstance {
            id: self.id,
            owner: self.owner.clone(),
            size: self.size,
            name: self.name.clone(),
            logo: self.logo.clone(),
            desc: self.desc.clone(),
            dao_manager_addr: self.dao_manager_addr.clone(),
        }
    }
}

/// A call the factory asks of its template contract: the method
/// `query_template_by_index` of `contract`, with `index`.
pub struct TemplateQuery {
    pub contract: String,
    pub index: u64,
}

/// The account `<prefix>.<current>`, under which a contract is created.
pub open spec fn sub_account_spec(prefix: Seq<char>, current: Seq<char>) -> Seq<char> {
    prefix + "."@ + current
}

/// The account `<prefix>.<current>`.
pub fn sub_account(prefix: &String, current: &String) -> (r: String)
    ensures
        r@ == sub_account_spec(prefix@, current@),
{
    let mut s = prefix.clone();
    s.append(".");
    s.append(current.as_str());
    s
}

/// This is the factory contract used to generate Dao
/// owner:the manager of the contract
/// template_addr:the template's address of the dao
/// instance_index:the instance index of all dao
/// instance_map:the daos, by index
/// instance_map_by_owner:the dao indexes of each user
pub struct DaoFactory {
    owner: String,
    template_addr: String,
    instance_index: u64,
    instance_map: KeyedMap<u64, DAOInstance>,
    instance_map_by_owner: KeyedMap<String, Vec<u64>>,
}

impl DaoFactory {
    /// The daos are recorded under the indexes below the next index, each under its own id.
    pub closed spec fn wf(&self) -> bool {
        &&& self.instance_map.wf()
        &&& self.instance_map_by_owner.wf()
        &&& forall|k: u64| #[trigger] self.instance_map.as_map().contains_key(k) <==> k < self.instance_index
        &&& forall|k: u64| #[trigger] self.instance_map.as_map().contains_key(k) ==> self.instance_map.as_map()[k].id == k
    }

    pub closed spec fn spec_owner(&self) -> Seq<char> {
        self.owner@
    }

    pub closed spec fn spec_template_addr(&self) -> Seq<char> {
        self.template_addr@
    }

    pub closed spec fn next_index(&self) -> u64 {
        self.instance_index
    }

    /// The list of daos of `a` in `lists`, empty when it has none.
    pub open spec fn list_of(lists: Map<Seq<char>, Seq<u64>>, a: Seq<char>) -> Seq<u64> {
        if lists.contains_key(a) {
            lists[a]
        } else {
            Seq::empty()
        }
    }

    /// The daos, by index.
    pub closed spec fn instances(&self) -> Map<u64, InstanceView> {
        self.instance_map.as_map().map_values(|d: DAOInstance| d.view())
    }

    /// The dao indexes of each user.
    pub closed spec fn by_owner(&self) -> Map<Seq<char>, Seq<u64>> {
        self.instance_map_by_owner.as_map().map_values(|v: Vec<u64>| v@)
    }

    /// A factory managed by the signer, which is also its template account until one is made.
    pub fn new(signer: String) -> (r: Self)
        ensures
            r.wf(),
            r.spec_owner() == signer@,
            r.spec_template_addr() == signer@,
            r.next_index() == 0,
            r.instances() == Map::<u64, InstanceView>::empty(),
            r.by_owner() == Map::<Seq<char>, Seq<u64>>::empty(),
    {
        let r = DaoFactory {
            owner: signer.clone(),
            template_addr: signer,
            instance_index: 0,
            instance_map: KeyedMap::new(),
            instance_map_by_owner: KeyedMap::new(),
        };
        assert(r.instances() =~= Map::<u64, InstanceView>::empty());
        assert(r.by_owner() =~= Map::<Seq<char>, Seq<u64>>::empty());
        r
    }

    /// The index the next dao gets.
    pub fn instance_index(&self) -> (r: u64)
        ensures
            r == self.next_index(),
    {
        self.instance_index
    }

    /// Whether `owner` has a list of daos.
    pub fn has_daos_of(&self, owner: String) -> (r: bool)
        requires
            self.wf(),
        ensures
            r == self.by_owner().contains_key(owner@),
    {
        self.instance_map_by_owner.contains_key(&owner)
    }

    /// Whether a dao is recorded under `id`.
    pub fn has_dao(&self, id: u64) -> (r: bool)
        requires
            self.wf(),
        ensures
            r == self.instances().contains_key(id),
    {
        self.instance_map.contains_key(&id)
    }

    /// Record the template account `<prefix>.<current>`; the account to create, fund with
    /// `TEMPLATE_INIT_BALANCE` and deploy the template code to is returned.
    pub fn init_factory(&mut self, prefix: String, current_account_id: String) -> (r: String)
        ensures
            r@ == sub_account_spec(prefix@, current_account_id@),
            final(self).spec_template_addr() == r@,
            final(self).spec_owner() == old(self).spec_owner(),
            final(self).next_index() == old(self).next_index(),
            final(self).instances() == old(self).instances(),
            final(self).by_owner() == old(self).by_owner(),
            final(self).wf() == old(self).wf(),
    {
        let subaccount_id = sub_account(&prefix, &current_account_id);
        self.template_addr = subaccount_id.clone();
        subaccount_id
    }

    /// Record a new dao of `controller` at the account `<prefix>.<current>`, under the next
    /// index; the account to create, fund with `DAO_INIT_BALANCE` and deploy the dao manager
    /// code to is returned. The new index is added to the end of the controller's list of
    /// daos (a list is started for a controller that has none).
    pub fn init_dao_by_template(
        &mut self,
        prefix: String,
        controller: String,
        current_account_id: String,
    ) -> (r: String)
        requires
            old(self).wf(),
            old(self).next_index() < u64::MAX,
        ensures
            r@ == sub_account_spec(prefix@, current_account_id@),
            final(self).wf(),
            final(self).next_index() == old(self).next_index() + 1,
            final(self).instances() == old(self).instances().insert(
                old(self).next_index(),
                InstanceView {
                    id: old(self).next_index(),
                    owner: controller@,
                    size: 0,
                    name: Seq::empty(),
                    logo: Seq::empty(),
                    desc: Seq::empty(),
                    dao_manager_addr: r@,
                },
            ),
            final(self).by_owner() == old(self).by_owner().insert(
                controller@,
                Self::list_of(old(self).by_owner(), controller@).push(old(self).next_index()),
            ),
            final(self).spec_owner() == old(self).spec_owner(),
            final(self).spec_template_addr() == old(self).spec_template_addr(),
    {
        let subaccount_id = sub_account(&prefix, &current_account_id);
        let mut id_list = match self.instance_map_by_owner.get(&controller) {
            Some(l) => l.clone(),
            None => Vec::new(),
        };
        id_list.push(self.instance_index);
        let ghost lv = id_list@;
        self.instance_map_by_owner.insert(controller.clone(), id_list);
        proof {
            assert(self.by_owner() =~= old(self).by_owner().insert(controller@, lv));
        }
        let index = self.instance_index;
        let inst = DAOInstance {
            id: index,
            owner: controller,
            size: 0,
            name: String::new(),
            logo: String::new(),
            desc: String::new(),
            dao_manager_addr: subaccount_id.clone(),
        };
        let ghost iv = inst.view();
        self.instance_map.insert(index, inst);
        self.instance_index = index + 1;
        proof {
            assert(self.instances() =~= old(self).instances().insert(index, iv));
            assert forall|k: u64| #[trigger] self.instance_map.as_map().contains_key(k) <==> k
                < self.instance_index by {
                if k == index {
                } else {
                    assert(self.instance_map.as_map().contains_key(k) == old(
                        self,
                    ).instance_map.as_map().contains_key(k));
                }
            }
        }
        subaccount_id
    }

    /// The call that asks the template contract for the template at `index`.
    pub fn query_template_by_index(&self, index: u64) -> (r: TemplateQuery)
        ensures
            r.contract@ == self.spec_template_addr(),
            r.index == index,
    {
        TemplateQuery { contract: self.template_addr.clone(), index }
    }

    /// get dao by id; the dao must exist
    pub fn get_dao_by_index(&self, id: u64) -> (r: DAOInstance)
        requires
            self.wf(),
            self.instances().contains_key(id),
        ensures
            r.view() == self.instances()[id],
    {
        match self.instance_map.get(&id) {
            Some(d) => d.copy(),
            None => {
                assert(false);
                DAOInstance {
                    id,
                    owner: String::new(),
                    size: 0,
                    name: String::new(),
                    logo: String::new(),
                    desc: String::new(),
                    dao_manager_addr: String::new(),
                }
            },
        }
    }

    /// the daos of the signer, who must have a list
    pub fn get_daos_by_owner(&self, signer: String) -> (r: Vec<u64>)
        requires
            self.wf(),
            self.by_owner().contains_key(signer@),
        ensures
            r@ == self.by_owner()[signer@],
    {
        match self.instance_map_by_owner.get(&signer) {
            Some(l) => l.clone(),
            None => {
                assert(false);
                Vec::new()
            },
        }
    }

    /// show all daos: the whole map, by index
    pub fn list_dao(self) -> (r: KeyedMap<u64, DAOInstance>)
        ensures
            r.as_map().map_values(|d: DAOInstance| d.view()) == self.instances(),
    {
        self.instance_map
    }

    /// record that the signer joined the dao at `index`: the index is added to the end of
    /// the signer's list of daos (a list is started for a signer that has none).
    pub fn joined_dao(&mut self, signer: String, index: u64) -> (r: bool)
        requires
            old(self).wf(),
        ensures
            r,
            final(self).wf(),
            final(self).by_owner() == old(self).by_owner().insert(
                signer@,
                Self::list_of(old(self).by_owner(), signer@).push(index),
            ),
            final(self).instances() == old(self).instances(),
            final(self).next_index() == old(self).next_index(),
            final(self).spec_owner() == old(self).spec_owner(),
            final(self).spec_template_addr() == old(self).spec_template_addr(),
    {
        let mut id_list = match self.instance_map_by_owner.get(&signer) {
            Some(l) => l.clone(),
            None => Vec::new(),
        };
        id_list.push(index);
        let ghost lv = id_list@;
        self.instance_map_by_owner.insert(signer, id_list);
        proof {
            assert(self.by_owner() =~= old(self).by_owner().insert(signer@, lv));
        }
        true
    }
}

impl DaoFactory {
    /// The daos are recorded exactly under the indexes below the next index, each under
    /// its own id.
    pub proof fn law_instance_ids(&self, k: u64)
        requires
            self.wf(),
        ensures
            self.instances().contains_key(k) <==> k < self.next_index(),
            self.instances().contains_key(k) ==> self.instances()[k].id == k,
    {
        assert(self.instance_map.as_map().contains_key(k) == self.instances().contains_key(k));
    }
}

} // verus!
