use vstd::prelude::*;

verus! {

/// A chat-platform user, as the web layer's session store keys them.
#[derive(Clone, Copy, PartialEq, Eq, Structural, Debug, Hash)]
pub struct WebAppUser {
    pub id: i64,
}

impl core::convert::From<i64> for WebAppUser {
    fn from(id: i64) -> Self {
        WebAppUser { id }
    }
}

impl vstd::std_specs::convert::FromSpecImpl<i64> for WebAppUser {
    open spec fn obeys_from_spec() -> bool {
        true
    }

    open spec fn from_spec(id: i64) -> Self {
        WebAppUser { id }
    }
}

/// The fields of the chat platform's login payload that the web layer reads:
/// the claimed user, the signature (`hash`), and the canonical string the
/// signature is computed over. Parsing the payload and checking the signature
/// are the web layer's work, outside this core.
#[derive(Debug)]
pub struct WebAppInitData {
    pub query_id: Option<String>,
    pub user: Option<WebAppUser>,
    pub hash: String,
    pub data_check_string: String,
}

} // verus!
