use vstd::prelude::*;

verus! {

/// Protocol version negotiated when the transport was opened.
#[derive(Clone, Copy, Debug, PartialEq, Eq, Structural)]
pub struct Version {
    pub major: u8,
    pub minor: u8,
}

/// A value in the metadata of a server reply.
#[derive(Debug, PartialEq)]
pub enum Value {
    Null,
    Boolean(bool),
    Integer(i64),
    Text(String),
}

/// One entry of the metadata of a server reply.
#[derive(Debug, PartialEq)]
pub struct Field {
    pub key: String,
    pub value: Value,
}

/// A reply of the server to a request.
#[derive(Debug, PartialEq)]
pub enum BoltResponse {
    SuccessMessage(Vec<Field>),
    FailureMessage(Vec<Field>),
    IgnoredMessage,
    RecordMessage(Vec<Value>),
}

/// The request that opens a session: client identifier and credentials.
#[derive(Debug, PartialEq)]
pub struct HelloRequest {
    pub user_agent: String,
    pub principal: String,
    pub credentials: String,
}

/// Identifier that the client announces in its hello request.
pub const USER_AGENT: &'static str = "neo4rs";

/// The text held by the first field named `key`, if there is one and it holds
/// text.
pub open spec fn text_field(fields: Seq<Field>, key: Seq<char>) -> Option<String>
    decreases fields.len(),
{
    if fields.len() == 0 {
        None
    } else if fields[0].key@ == key {
        match fields[0].value {
            Value::Text(s) => Some(s),
            _ => None,
        }
    } else {
        text_field(fields.drop_first(), key)
    }
}

/// Looks up the text of the first field named `key`.
pub fn get_text(fields: &Vec<Field>, key: &String) -> (r: Option<String>)
    ensures
        r == text_field(fields@, key@),
{
    let mut i: usize = 0;
    assert(fields@.subrange(0, fields.len() as int) =~= fields@);
    while i < fields.len()
        invariant
            0 <= i <= fields.len(),
            text_field(fields@, key@) == text_field(fields@.subrange(i as int, fields.len() as int), key@),
        decreases fields.len() - i,
    {
        let rest = Ghost(fields@.subrange(i as int, fields.len() as int));
        assert(rest@[0] == fields@[i as int]);
        assert(rest@.drop_first() =~= fields@.subrange(i as int + 1, fields.len() as int));
        if fields[i].key == *key {
            return match &fields[i].value {
                Value::Text(s) => Some(s.clone()),
                _ => None,
            };
        }
        i = i + 1;
    }
    assert(fields@.subrange(i as int, fields.len() as int).len() == 0);
    None
}

/// Builds the hello request for the given credentials.
pub fn hello(principal: &String, credentials: &String) -> (r: HelloRequest)
    ensures
        r.user_agent@ == USER_AGENT@,
        r.principal == *principal,
        r.credentials == *credentials,
{
    HelloRequest {
        user_agent: USER_AGENT.to_owned(),
        principal: principal.clone(),
        credentials: credentials.clone(),
    }
}

} // verus!
