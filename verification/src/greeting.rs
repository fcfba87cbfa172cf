//! The text of the greetings.

use vstd::prelude::*;

verus! {

/// The host name as a sequence of characters, where there is one.
pub open spec fn host_view(host: Option<&str>) -> Option<Seq<char>> {
    match host {
        Some(h) => Some(h@),
        None => None,
    }
}

/// The body of the greeting to the world. Without a host name it is a fixed
/// line; with one, the line also says which machine is greeting.
pub open spec fn index_text(host: Option<Seq<char>>) -> Seq<char> {
    match host {
        None => "Hello, world!\n"@,
        Some(h) => "Hello, world, from "@ + h + "!\n"@,
    }
}

/// The body of the greeting to `name`: the name stands in the line exactly as
/// it was given, followed by the host name where there is one.
pub open spec fn hello_text(name: Seq<char>, host: Option<Seq<char>>) -> Seq<char> {
    match host {
        None => "Hello, "@ + name + "!\n"@,
        Some(h) => "Hello, "@ + name + ", from "@ + h + "!\n"@,
    }
}

/// Greets the world, from `host` if one is given.
pub fn index(host: Option<&str>) -> (body: String)
    ensures
        body@ == index_text(host_view(host)),
{
    match host {
        None => "Hello, world!\n".to_owned(),
        Some(h) => {
            let mut body = "Hello, world, from ".to_owned();
            body.append(h);
            body.append("!\n");
            body
        },
    }
}

/// Greets `name`, from `host` if one is given. Any name is accepted and
/// echoed as it is.
pub fn hello(name: &str, host: Option<&str>) -> (body: String)
    ensures
        body@ == hello_text(name@, host_view(host)),
{
    let mut body = "Hello, ".to_owned();
    body.append(name);
    match host {
        None => {},
        Some(h) => {
            body.append(", from ");
            body.append(h);
        },
    }
    body.append("!\n");
    body
}

/// Every greeting to a name holds that name unchanged: it stands in the body
/// right after the seven characters of the salutation.
pub proof fn lemma_hello_text_holds_name(name: Seq<char>, host: Option<Seq<char>>)
    ensures
        hello_text(name, host).len() >= 7 + name.len(),
        hello_text(name, host).subrange(7, 7 + name.len() as int) == name,
{
    reveal_strlit("Hello, ");
    assert(hello_text(name, host).subrange(7, 7 + name.len() as int) =~= name);
}

} // verus!
