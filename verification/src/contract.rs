//! A contract of a deployment: its id, and where its address and its code
//! are found.

use crate::json::{JsonDocument, JsonDocumentView, JsonValue, JsonValueView};
use crate::state::{CwEnvError, CwEnvErrorView, StateInterface};
use crate::text::opt_text;
use vstd::prelude::*;

verus! {

/// A contract of a deployment. The state of the deployment holds its address
/// and its code; the defaults stand in where the state holds none.
#[derive(Debug, PartialEq, Eq)]
pub struct Contract {
    /// ID of the contract, used to retrieve addr/code-id
    pub id: String,
    /// Optional code id used in case none is registered in the state
    pub default_code_id: Option<u64>,
    /// Optional address used in case none is registered in the state
    pub default_address: Option<String>,
}

/// The address of a contract: the one of the state, else the default.
pub open spec fn resolved_address(
    stored: Map<Seq<char>, Seq<char>>,
    default_address: Option<Seq<char>>,
    id: Seq<char>,
) -> Result<Seq<char>, CwEnvErrorView> {
    if stored.contains_key(id) {
        Ok(stored[id])
    } else {
        match default_address {
            Some(address) => Ok(address),
            None => Err(CwEnvErrorView::AddrNotInStore(id)),
        }
    }
}

/// The code of a contract: the one of the state, else the default.
pub open spec fn resolved_code_id(
    stored: Map<Seq<char>, u64>,
    default_code_id: Option<u64>,
    id: Seq<char>,
) -> Result<u64, CwEnvErrorView> {
    if stored.contains_key(id) {
        Ok(stored[id])
    } else {
        match default_code_id {
            Some(code_id) => Ok(code_id),
            None => Err(CwEnvErrorView::CodeIdNotInStore(id)),
        }
    }
}

/// The name of the first member of a document, where the document is an
/// object that has members.
pub open spec fn first_member_name(doc: JsonDocumentView) -> Option<Seq<char>> {
    match doc.value {
        JsonValueView::Object(members) => if members.len() > 0 {
            Some(members[0].key)
        } else {
            None
        },
        _ => None,
    }
}

impl Contract {
    /// A contract without defaults.
    pub fn new(id: &str) -> (r: Self)
        ensures
            r.id@ == id@,
            r.default_code_id is None,
            r.default_address is None,
    {
        Contract { id: id.to_owned(), default_code_id: None, default_address: None }
    }

    /// Enters `address`, if there is one, as the contract's address in the
    /// state.
    pub fn with_address<S: StateInterface>(self, state: &mut S, address: Option<&String>) -> (r:
        Self)
        ensures
            r == self,
            final(state).addresses() == (match address {
                Some(a) => old(state).addresses().insert(self.id@, a@),
                None => old(state).addresses(),
            }),
            final(state).code_ids() == old(state).code_ids(),
    {
        match address {
            Some(a) => {
                state.set_address(self.id.as_str(), a);
            },
            None => {},
        }
        self
    }

    /// The address of the contract: the one of the state, else the default.
    pub fn address<S: StateInterface>(&self, state: &S) -> (r: Result<String, CwEnvError>)
        ensures
            match r {
                Ok(address) => resolved_address(
                    state.addresses(),
                    opt_text(self.default_address),
                    self.id@,
                ) == Ok::<Seq<char>, CwEnvErrorView>(address@),
                Err(e) => resolved_address(
                    state.addresses(),
                    opt_text(self.default_address),
                    self.id@,
                ) == Err::<Seq<char>, CwEnvErrorView>(e@),
            },
    {
        match state.get_address(self.id.as_str()) {
            Ok(address) => Ok(address),
            Err(_) => match &self.default_address {
                Some(address) => Ok(address.clone()),
                None => Err(CwEnvError::AddrNotInStore(self.id.clone())),
            },
        }
    }

    /// Sets the address of the contract in the state.
    pub fn set_address<S: StateInterface>(&self, state: &mut S, address: &String)
        ensures
            final(state).addresses() == old(state).addresses().insert(self.id@, address@),
            final(state).code_ids() == old(state).code_ids(),
    {
        state.set_address(self.id.as_str(), address)
    }

    /// Sets the address that stands in where the state holds none.
    pub fn set_default_address(&mut self, address: &String)
        ensures
            opt_text(final(self).default_address) == Some(address@),
            final(self).id == old(self).id,
            final(self).default_code_id == old(self).default_code_id,
    {
        self.default_address = Some(address.clone());
    }

    /// The code of the contract: the one of the state, else the default.
    pub fn code_id<S: StateInterface>(&self, state: &S) -> (r: Result<u64, CwEnvError>)
        ensures
            match r {
                Ok(code_id) => resolved_code_id(state.code_ids(), self.default_code_id, self.id@)
                    == Ok::<u64, CwEnvErrorView>(code_id),
                Err(e) => resolved_code_id(state.code_ids(), self.default_code_id, self.id@)
                    == Err::<u64, CwEnvErrorView>(e@),
            },
    {
        match state.get_code_id(self.id.as_str()) {
            Ok(code_id) => Ok(code_id),
            Err(_) => match self.default_code_id {
                Some(code_id) => Ok(code_id),
                None => Err(CwEnvError::CodeIdNotInStore(self.id.clone())),
            },
        }
    }

    /// Sets the code of the contract in the state.
    pub fn set_code_id<S: StateInterface>(&self, state: &mut S, code_id: u64)
        ensures
            final(state).code_ids() == old(state).code_ids().insert(self.id@, code_id),
            final(state).addresses() == old(state).addresses(),
    {
        state.set_code_id(self.id.as_str(), code_id)
    }

    /// Sets the code that stands in where the state holds none.
    pub fn set_default_code_id(&mut self, code_id: u64)
        ensures
            final(self).default_code_id == Some(code_id),
            final(self).id == old(self).id,
            final(self).default_address == old(self).default_address,
    {
        self.default_code_id = Some(code_id);
    }
}

/// The name of a message, given the message as a JSON document: the name of
/// its first member.
pub fn get_struct_name(serialized: &JsonDocument) -> (r: Option<String>)
    ensures
        opt_text(r) == first_member_name(serialized@),
{
    match &serialized.value {
        JsonValue::Object(members) => {
            if members.len() > 0 {
                assert(serialized@.value->Object_0[0] == members@[0]@);
                Some(members[0].key.clone())
            } else {
                None
            }
        },
        _ => None,
    }
}

} // verus!
