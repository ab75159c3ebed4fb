//! The local state of a deployment: the address and the code of each
//! contract, by the contract's id.

use crate::text::texts;
use crate::text_map::TextMap;
use vstd::prelude::*;

verus! {

/// What can go wrong on the side of the environment.
#[derive(Debug, PartialEq, Eq)]
pub enum CwEnvError {
    /// No address is known for the contract.
    AddrNotInStore(String),
    /// No code is known for the contract.
    CodeIdNotInStore(String),
}

pub enum CwEnvErrorView {
    AddrNotInStore(Seq<char>),
    CodeIdNotInStore(Seq<char>),
}

impl View for CwEnvError {
    type V = CwEnvErrorView;

    open spec fn view(&self) -> CwEnvErrorView {
        match self {
            CwEnvError::AddrNotInStore(id) => CwEnvErrorView::AddrNotInStore(id@),
            CwEnvError::CodeIdNotInStore(id) => CwEnvErrorView::CodeIdNotInStore(id@),
        }
    }
}

/// The texts of a map of texts.
pub open spec fn text_values(map: Map<Seq<char>, String>) -> Map<Seq<char>, Seq<char>> {
    Map::new(|k: Seq<char>| map.contains_key(k), |k: Seq<char>| map[k]@)
}

/// Whether `all` lists `map`: each key once, with its value.
pub open spec fn lists_addresses(all: Seq<(String, String)>, map: Map<Seq<char>, Seq<char>>) -> bool {
    &&& forall|i: int|
        0 <= i < all.len() ==> map.contains_key((#[trigger] all[i]).0@) && map[all[i].0@]
            == all[i].1@
    &&& forall|k: Seq<char>|
        map.contains_key(k) ==> exists|i: int| 0 <= i < all.len() && (#[trigger] all[i]).0@ == k
    &&& forall|i: int, j: int|
        0 <= i < j < all.len() ==> (#[trigger] all[i]).0@ != (#[trigger] all[j]).0@
}

/// Whether `all` lists `map`: each key once, with its value.
pub open spec fn lists_code_ids(all: Seq<(String, u64)>, map: Map<Seq<char>, u64>) -> bool {
    &&& forall|i: int|
        0 <= i < all.len() ==> map.contains_key((#[trigger] all[i]).0@) && map[all[i].0@]
            == all[i].1
    &&& forall|k: Seq<char>|
        map.contains_key(k) ==> exists|i: int| 0 <= i < all.len() && (#[trigger] all[i]).0@ == k
    &&& forall|i: int, j: int|
        0 <= i < j < all.len() ==> (#[trigger] all[i]).0@ != (#[trigger] all[j]).0@
}

/// The local state of a deployment, for whoever holds it alone.
pub trait StateInterface {
    /// The address of each contract that has one.
    spec fn addresses(&self) -> Map<Seq<char>, Seq<char>>;

    /// The code of each contract that has one.
    spec fn code_ids(&self) -> Map<Seq<char>, u64>;

    /// The address of the contract `contract_id`.
    fn get_address(&self, contract_id: &str) -> (r: Result<String, CwEnvError>)
        ensures
            match r {
                Ok(address) => self.addresses().contains_key(contract_id@) && address@
                    == self.addresses()[contract_id@],
                Err(e) => !self.addresses().contains_key(contract_id@) && e@
                    == CwEnvErrorView::AddrNotInStore(contract_id@),
            },
    ;

    /// Sets the address of the contract `contract_id`.
    fn set_address(&mut self, contract_id: &str, address: &String)
        ensures
            final(self).addresses() == old(self).addresses().insert(contract_id@, address@),
            final(self).code_ids() == old(self).code_ids(),
    ;

    /// The code of the contract `contract_id`.
    fn get_code_id(&self, contract_id: &str) -> (r: Result<u64, CwEnvError>)
        ensures
            match r {
                Ok(code_id) => self.code_ids().contains_key(contract_id@) && code_id
                    == self.code_ids()[contract_id@],
                Err(e) => !self.code_ids().contains_key(contract_id@) && e@
                    == CwEnvErrorView::CodeIdNotInStore(contract_id@),
            },
    ;

    /// Sets the code of the contract `contract_id`.
    fn set_code_id(&mut self, contract_id: &str, code_id: u64)
        ensures
            final(self).code_ids() == old(self).code_ids().insert(contract_id@, code_id),
            final(self).addresses() == old(self).addresses(),
    ;

    /// All addresses of the deployment: each contract once, with its
    /// address.
    fn get_all_addresses(&self) -> (r: Result<Vec<(String, String)>, CwEnvError>)
        ensures
            r is Ok,
            lists_addresses(r->Ok_0@, self.addresses()),
    ;

    /// All codes of the deployment: each contract once, with its code.
    fn get_all_code_ids(&self) -> (r: Result<Vec<(String, u64)>, CwEnvError>)
        ensures
            r is Ok,
            lists_code_ids(r->Ok_0@, self.code_ids()),
    ;
}

/// A state that lives in memory only.
#[derive(Debug)]
pub struct MockState {
    chain_id: String,
    addresses: TextMap<String>,
    code_ids: TextMap<u64>,
}

impl MockState {
    /// The chain that the deployment is on.
    pub closed spec fn chain(&self) -> Seq<char> {
        self.chain_id@
    }

    /// The chain that the deployment is on.
    pub fn chain_id(&self) -> (r: &String)
        ensures
            r@ == self.chain(),
    {
        &self.chain_id
    }

    /// An empty state on the chain `cosmos-testnet-14002`.
    pub fn new() -> (r: Self)
        ensures
            r.addresses() == Map::<Seq<char>, Seq<char>>::empty(),
            r.code_ids() == Map::<Seq<char>, u64>::empty(),
            r.chain() == "cosmos-testnet-14002"@,
    {
        let r = MockState {
            chain_id: "cosmos-testnet-14002".to_owned(),
            addresses: TextMap::new(),
            code_ids: TextMap::new(),
        };
        assert(r.addresses() =~= Map::<Seq<char>, Seq<char>>::empty());
        r
    }

    /// An empty state on the chain `chain_id`.
    pub fn new_with_chain_id(chain_id: &str) -> (r: Self)
        ensures
            r.addresses() == Map::<Seq<char>, Seq<char>>::empty(),
            r.code_ids() == Map::<Seq<char>, u64>::empty(),
            r.chain() == chain_id@,
    {
        let r = MockState {
            chain_id: chain_id.to_owned(),
            addresses: TextMap::new(),
            code_ids: TextMap::new(),
        };
        assert(r.addresses() =~= Map::<Seq<char>, Seq<char>>::empty());
        r
    }

    /// Puts the state on the chain `chain_id`.
    pub fn set_chain_id(&mut self, chain_id: &str)
        ensures
            final(self).chain() == chain_id@,
            final(self).addresses() == old(self).addresses(),
            final(self).code_ids() == old(self).code_ids(),
    {
        self.chain_id = chain_id.to_owned();
    }
}

impl StateInterface for MockState {
    closed spec fn addresses(&self) -> Map<Seq<char>, Seq<char>> {
        text_values(self.addresses@)
    }

    closed spec fn code_ids(&self) -> Map<Seq<char>, u64> {
        self.code_ids@
    }

    fn get_address(&self, contract_id: &str) -> (r: Result<String, CwEnvError>) {
        match self.addresses.get(contract_id) {
            Some(address) => Ok(address.clone()),
            None => Err(CwEnvError::AddrNotInStore(contract_id.to_owned())),
        }
    }

    fn set_address(&mut self, contract_id: &str, address: &String) {
        let value = address.clone();
        self.addresses.insert(contract_id.to_owned(), value);
        assert(text_values(self.addresses@) =~= text_values(old(self).addresses@).insert(
            contract_id@,
            address@,
        ));
    }

    fn get_code_id(&self, contract_id: &str) -> (r: Result<u64, CwEnvError>) {
        match self.code_ids.get(contract_id) {
            Some(code_id) => Ok(*code_id),
            None => Err(CwEnvError::CodeIdNotInStore(contract_id.to_owned())),
        }
    }

    fn set_code_id(&mut self, contract_id: &str, code_id: u64) {
        self.code_ids.insert(contract_id.to_owned(), code_id);
    }

    fn get_all_addresses(&self) -> (r: Result<Vec<(String, String)>, CwEnvError>) {
        let keys = self.addresses.keys();
        let mut all: Vec<(String, String)> = Vec::new();
        let mut i: usize = 0;
        while i < keys.len()
            invariant
                i <= keys.len(),
                all@.len() == i,
                forall|k: Seq<char>|
                    self.addresses@.contains_key(k) <==> texts(keys@).contains(k),
                forall|j: int|
                    0 <= j < i ==> (#[trigger] all@[j]).0@ == keys@[j]@
                        && self.addresses().contains_key(all@[j].0@) && self.addresses()[all@[j].0@]
                        == all@[j].1@,
            decreases keys.len() - i,
        {
            assert(texts(keys@)[i as int] == keys@[i as int]@);
            assert(texts(keys@).contains(keys@[i as int]@));
            assert(self.addresses@.contains_key(keys@[i as int]@));
            let address = match self.addresses.get(keys[i].as_str()) {
                Some(a) => a.clone(),
                None => String::new(),
            };
            assert(self.addresses()[keys@[i as int]@] == address@);
            all.push((keys[i].clone(), address));
            i += 1;
        }
        proof {
            let listed = texts(keys@);
            assert forall|k: Seq<char>| self.addresses().contains_key(k) implies exists|i: int|
                0 <= i < all@.len() && (#[trigger] all@[i]).0@ == k by {
                assert(listed.contains(k));
                let j = choose|j: int| 0 <= j < listed.len() && listed[j] == k;
                assert(all@[j].0@ == k);
            }
            assert forall|a: int, b: int| 0 <= a < b < all@.len() implies (#[trigger] all@[a]).0@
                != (#[trigger] all@[b]).0@ by {
                assert(listed[a] != listed[b]);
            }
        }
        Ok(all)
    }

    fn get_all_code_ids(&self) -> (r: Result<Vec<(String, u64)>, CwEnvError>) {
        let keys = self.code_ids.keys();
        let mut all: Vec<(String, u64)> = Vec::new();
        let mut i: usize = 0;
        while i < keys.len()
            invariant
                i <= keys.len(),
                all@.len() == i,
                forall|k: Seq<char>|
                    self.code_ids@.contains_key(k) <==> texts(keys@).contains(k),
                forall|j: int|
                    0 <= j < i ==> (#[trigger] all@[j]).0@ == keys@[j]@
                        && self.code_ids().contains_key(all@[j].0@) && self.code_ids()[all@[j].0@]
                        == all@[j].1,
            decreases keys.len() - i,
        {
            assert(texts(keys@)[i as int] == keys@[i as int]@);
            assert(texts(keys@).contains(keys@[i as int]@));
            assert(self.code_ids@.contains_key(keys@[i as int]@));
            let code_id = match self.code_ids.get(keys[i].as_str()) {
                Some(c) => *c,
                None => 0,
            };
            all.push((keys[i].clone(), code_id));
            i += 1;
        }
        proof {
            let listed = texts(keys@);
            assert forall|k: Seq<char>| self.code_ids().contains_key(k) implies exists|i: int|
                0 <= i < all@.len() && (#[trigger] all@[i]).0@ == k by {
                assert(listed.contains(k));
                let j = choose|j: int| 0 <= j < listed.len() && listed[j] == k;
                assert(all@[j].0@ == k);
            }
            assert forall|a: int, b: int| 0 <= a < b < all@.len() implies (#[trigger] all@[a]).0@
                != (#[trigger] all@[b]).0@ by {
                assert(listed[a] != listed[b]);
            }
        }
        Ok(all)
    }
}

} // verus!
