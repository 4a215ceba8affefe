use vstd::prelude::*;

verus! {

/// An outbound payment of `amount` of `denom` to `to_address`.
#[derive(Debug, PartialEq)]
pub struct BankMsg {
    pub to_address: String,
    pub denom: String,
    pub amount: u128,
}

/// One key/value pair describing the effect of a call.
#[derive(Debug, PartialEq)]
pub struct Attribute {
    pub key: String,
    pub value: String,
}

/// What a successful call hands back to the host: the payments to make and
/// the attributes that describe the call.
#[derive(Debug, PartialEq)]
pub struct Response {
    pub messages: Vec<BankMsg>,
    pub attributes: Vec<Attribute>,
}

impl Response {
    /// The payments, each as (recipient, denomination, amount).
    pub open spec fn payments(&self) -> Seq<(Seq<char>, Seq<char>, u128)> {
        self.messages@.map_values(|m: BankMsg| (m.to_address@, m.denom@, m.amount))
    }

    /// The attributes, each as (key, value).
    pub open spec fn attrs(&self) -> Seq<(Seq<char>, Seq<char>)> {
        self.attributes@.map_values(|a: Attribute| (a.key@, a.value@))
    }

    /// A response with no payment and no attribute.
    pub fn new() -> (r: Response)
        ensures
            r.payments() == Seq::<(Seq<char>, Seq<char>, u128)>::empty(),
            r.attrs() == Seq::<(Seq<char>, Seq<char>)>::empty(),
    {
        let r = Response { messages: Vec::new(), attributes: Vec::new() };
        assert(r.payments() =~= Seq::<(Seq<char>, Seq<char>, u128)>::empty());
        assert(r.attrs() =~= Seq::<(Seq<char>, Seq<char>)>::empty());
        r
    }
}

/// An attribute from a key and a value.
pub fn attribute(key: &str, value: String) -> (r: Attribute)
    ensures
        r.key@ == key@,
        r.value@ == value@,
{
    Attribute { key: String::from_str(key), value }
}

} // verus!
