//! How often a handler is registered in the source of a REST project.
//!
//! Every handler is registered by a call that begins with the text
//! [`REGISTRATION`]. The source holds that text once for each endpoint, and
//! twice in its fixed head, for the root and the health handlers, and
//! nowhere else, as long as no path holds the text itself.

use vstd::prelude::*;

use crate::model::{EndpointView, HttpMethod};
use crate::render::{handler_text, handlers, rest_source, REST_HEAD, REST_TAIL};
use crate::text::{
    agrees_from, lemma_contains_concat, lemma_occurrences_after, lemma_occurrences_concat,
    lemma_occurrences_split, lemma_occurs_at_agrees, lemma_short_text_without, occurrences,
    occurrences_in, occurs_at,
};

verus! {

/// The text with which the registration of a handler begins.
pub const REGISTRATION: &'static str = "app.at(";

/// No path of the endpoints holds the text of a registration.
pub open spec fn paths_register_nothing(endpoints: Seq<EndpointView>) -> bool {
    forall|i: int|
        0 <= i < endpoints.len() ==> occurrences((#[trigger] endpoints[i]).path, REGISTRATION@)
            == 0
}

/// What stands in a handler between the path it is registered at and the
/// path that its answer names.
spec fn after_registered_path(method: HttpMethod) -> Seq<char> {
    "\")."@ + method.route_text() + "(|_| async {\n        Ok(\""@ + "Endpoint: "@
}

/// What stands in a handler behind the path that its answer names.
spec fn after_answered_path(method: HttpMethod) -> Seq<char> {
    ", Method: "@ + method.label_text() + "\")\n    });"@
}

/// The text of a registration is seven characters long and holds none of
/// the characters at which the parts of a source meet.
proof fn lemma_registration_characters()
    ensures
        REGISTRATION@.len() == 7,
        !REGISTRATION@.contains('"'),
        !REGISTRATION@.contains(' '),
        !REGISTRATION@.contains(','),
        !REGISTRATION@.contains('\n'),
        !REGISTRATION@.contains('s'),
{
    reveal_strlit("app.at(");
    let pattern = REGISTRATION@;
    assert forall|c: char| #[trigger]
        pattern.contains(c) implies c == 'a' || c == 'p' || c == '.' || c == 't' || c == '(' by {
        let i = choose|i: int| 0 <= i < pattern.len() && pattern[i] == c;
        assert(i == 0 || i == 1 || i == 2 || i == 3 || i == 4 || i == 5 || i == 6);
    }
}

/// Wherever the registration stands in a text, it agrees with the text
/// character by character.
proof fn lemma_registration_agrees(text: Seq<char>)
    ensures
        forall|i: int| #[trigger]
            occurs_at(text, REGISTRATION@, i) == agrees_from(text, REGISTRATION@, i, 0),
{
    lemma_registration_characters();
    assert forall|i: int| #[trigger]
        occurs_at(text, REGISTRATION@, i) == agrees_from(text, REGISTRATION@, i, 0) by {
        lemma_occurs_at_agrees(text, REGISTRATION@, i);
    }
}

/// The fixed head registers two handlers, and ends with a character that
/// the registration does not hold.
proof fn lemma_head_registers_twice()
    ensures
        occurrences(REST_HEAD@, REGISTRATION@) == 2,
        REST_HEAD@.len() > 0,
        !REGISTRATION@.contains(REST_HEAD@.last()),
{
    let head = REST_HEAD@;
    let pattern = REGISTRATION@;
    reveal_strlit("app.at(");
    reveal_strlit(r#"use tide::{Request, Response, Server};
use async_std::task;

#[async_std::main]
async fn main() -> tide::Result<()> {
    let mut app = tide::new();
    
    // Default route
    app.at("/").get(|_| async { 
        Ok("Welcome to REST API!") 
    });

    // Health check endpoint
    app.at("/health").get(|_| async {
        Ok("API is healthy!")
    });

    // Generated Endpoints"#);
    lemma_registration_characters();
    lemma_registration_agrees(head);
    assert(head.len() == 385);
    assert(occurrences_in(head, pattern, 0, 48) == 0) by {
        reveal_with_fuel(occurrences_in, 49);
        reveal_with_fuel(agrees_from, 8);
    }
    assert(occurrences_in(head, pattern, 48, 96) == 0) by {
        reveal_with_fuel(occurrences_in, 49);
        reveal_with_fuel(agrees_from, 8);
    }
    lemma_occurrences_split(head, pattern, 0, 48, 96);
    assert(occurrences_in(head, pattern, 96, 144) == 0) by {
        reveal_with_fuel(occurrences_in, 49);
        reveal_with_fuel(agrees_from, 8);
    }
    lemma_occurrences_split(head, pattern, 0, 96, 144);
    assert(occurrences_in(head, pattern, 144, 192) == 1) by {
        reveal_with_fuel(occurrences_in, 49);
        reveal_with_fuel(agrees_from, 8);
    }
    lemma_occurrences_split(head, pattern, 0, 144, 192);
    assert(occurrences_in(head, pattern, 192, 240) == 0) by {
        reveal_with_fuel(occurrences_in, 49);
        reveal_with_fuel(agrees_from, 8);
    }
    lemma_occurrences_split(head, pattern, 0, 192, 240);
    assert(occurrences_in(head, pattern, 240, 288) == 1) by {
        reveal_with_fuel(occurrences_in, 49);
        reveal_with_fuel(agrees_from, 8);
    }
    lemma_occurrences_split(head, pattern, 0, 240, 288);
    assert(occurrences_in(head, pattern, 288, 336) == 0) by {
        reveal_with_fuel(occurrences_in, 49);
        reveal_with_fuel(agrees_from, 8);
    }
    lemma_occurrences_split(head, pattern, 0, 288, 336);
    assert(occurrences_in(head, pattern, 336, 384) == 0) by {
        reveal_with_fuel(occurrences_in, 49);
        reveal_with_fuel(agrees_from, 8);
    }
    lemma_occurrences_split(head, pattern, 0, 336, 384);
    assert(occurrences_in(head, pattern, 384, 385) == 0) by {
        reveal_with_fuel(occurrences_in, 2);
        reveal_with_fuel(agrees_from, 8);
    }
    lemma_occurrences_split(head, pattern, 0, 384, 385);
}

/// The fixed tail registers no handler, and begins with a character that
/// the registration does not hold.
proof fn lemma_tail_registers_nothing()
    ensures
        occurrences(REST_TAIL@, REGISTRATION@) == 0,
        REST_TAIL@.len() > 0,
        !REGISTRATION@.contains(REST_TAIL@[0]),
{
    let tail = REST_TAIL@;
    let pattern = REGISTRATION@;
    reveal_strlit("app.at(");
    reveal_strlit(r#"

    println!("Server starting on http://localhost:8080");
    app.listen("127.0.0.1:8080").await?;
    Ok(())
}
"#);
    lemma_registration_characters();
    lemma_registration_agrees(tail);
    assert(tail.len() == 114);
    assert(occurrences_in(tail, pattern, 0, 48) == 0) by {
        reveal_with_fuel(occurrences_in, 49);
        reveal_with_fuel(agrees_from, 8);
    }
    assert(occurrences_in(tail, pattern, 48, 96) == 0) by {
        reveal_with_fuel(occurrences_in, 49);
        reveal_with_fuel(agrees_from, 8);
    }
    lemma_occurrences_split(tail, pattern, 0, 48, 96);
    assert(occurrences_in(tail, pattern, 96, 114) == 0) by {
        reveal_with_fuel(occurrences_in, 19);
        reveal_with_fuel(agrees_from, 8);
    }
    lemma_occurrences_split(tail, pattern, 0, 96, 114);
}

/// The opening of a handler registers it, once, and ends with a character
/// that the registration does not hold.
proof fn lemma_opening_registers_once()
    ensures
        occurrences("\n    app.at(\""@, REGISTRATION@) == 1,
        "\n    app.at(\""@.len() > 0,
        "\n    app.at(\""@[0] == '\n',
        "\n    app.at(\""@.last() == '"',
{
    let opening = "\n    app.at(\""@;
    let pattern = REGISTRATION@;
    reveal_strlit("app.at(");
    reveal_strlit("\n    app.at(\"");
    lemma_registration_agrees(opening);
    assert(occurrences_in(opening, pattern, 0, 13) == 1) by {
        reveal_with_fuel(occurrences_in, 20);
        reveal_with_fuel(agrees_from, 8);
    }
}

/// The fixed parts of a handler behind its opening register nothing,
/// whatever the method, and begin and end with characters that the
/// registration does not hold.
proof fn lemma_fixed_parts_register_nothing(method: HttpMethod)
    ensures
        occurrences(after_registered_path(method), REGISTRATION@) == 0,
        occurrences(after_answered_path(method), REGISTRATION@) == 0,
        after_registered_path(method).len() > 0,
        after_registered_path(method)[0] == '"',
        after_registered_path(method).last() == ' ',
        after_answered_path(method).len() > 0,
        after_answered_path(method)[0] == ',',
{
    let pattern = REGISTRATION@;
    let call = "\")."@ + method.route_text();
    let body = "(|_| async {\n        Ok(\""@;
    let named = "Endpoint: "@;
    let second = after_answered_path(method);
    reveal_strlit("app.at(");
    reveal_strlit("\").");
    reveal_strlit("(|_| async {\n        Ok(\"");
    reveal_strlit("Endpoint: ");
    reveal_strlit(", Method: ");
    reveal_strlit("\")\n    });");
    reveal_strlit("get");
    reveal_strlit("post");
    reveal_strlit("put");
    reveal_strlit("delete");
    reveal_strlit("GET");
    reveal_strlit("POST");
    reveal_strlit("PUT");
    reveal_strlit("DELETE");
    lemma_registration_characters();
    // Neither the call nor what follows the answered path holds an `a`, with
    // which a registration begins.
    lemma_short_text_without("\")."@, 'a');
    lemma_short_text_without(method.route_text(), 'a');
    lemma_short_text_without(", Method: "@, 'a');
    lemma_short_text_without(method.label_text(), 'a');
    lemma_short_text_without("\")\n    });"@, 'a');
    lemma_contains_concat("\")."@, method.route_text(), 'a');
    lemma_contains_concat(", Method: "@, method.label_text(), 'a');
    lemma_contains_concat(", Method: "@ + method.label_text(), "\")\n    });"@, 'a');
    // The opening of the body and the beginning of the answer hold no
    // registration.
    lemma_registration_agrees(body);
    lemma_registration_agrees(named);
    assert(occurrences_in(body, pattern, 0, body.len() as int) == 0) by {
        reveal_with_fuel(occurrences_in, 30);
        reveal_with_fuel(agrees_from, 8);
    }
    assert(occurrences_in(named, pattern, 0, named.len() as int) == 0) by {
        reveal_with_fuel(occurrences_in, 12);
        reveal_with_fuel(agrees_from, 8);
    }
    lemma_occurrences_concat(body, named, pattern);
    lemma_occurrences_after(call, body + named, pattern);
    assert(after_registered_path(method) =~= call + (body + named));
    lemma_occurrences_after(second, Seq::empty(), pattern);
    assert(second + Seq::<char>::empty() =~= second);
}

/// A handler is registered once in its own text, as long as its path does
/// not hold the text of a registration, and its text begins with a
/// character that the registration does not hold.
pub proof fn lemma_handler_registers_once(endpoint: EndpointView)
    requires
        occurrences(endpoint.path, REGISTRATION@) == 0,
    ensures
        occurrences(handler_text(endpoint), REGISTRATION@) == 1,
        handler_text(endpoint).len() > 0,
        !REGISTRATION@.contains(handler_text(endpoint)[0]),
{
    let pattern = REGISTRATION@;
    let opening = "\n    app.at(\""@;
    let path = endpoint.path;
    let first = after_registered_path(endpoint.method);
    let second = after_answered_path(endpoint.method);
    lemma_registration_characters();
    lemma_opening_registers_once();
    lemma_fixed_parts_register_nothing(endpoint.method);
    assert(handler_text(endpoint) =~= opening + path + first + path + second);
    lemma_occurrences_concat(opening, path, pattern);
    lemma_occurrences_concat(opening + path, first, pattern);
    assert((opening + path + first).last() == first.last());
    lemma_occurrences_concat(opening + path + first, path, pattern);
    lemma_occurrences_concat(opening + path + first + path, second, pattern);
}

/// The handlers of endpoints whose paths hold no registration are, laid end
/// to end, registered once each.
pub proof fn lemma_handlers_register_once_each(endpoints: Seq<EndpointView>)
    requires
        paths_register_nothing(endpoints),
    ensures
        occurrences(handlers(endpoints).flatten(), REGISTRATION@) == endpoints.len(),
    decreases endpoints.len(),
{
    lemma_registration_characters();
    if endpoints.len() == 0 {
        assert(handlers(endpoints) =~= Seq::<Seq<char>>::empty());
        assert(handlers(endpoints).flatten() =~= Seq::<char>::empty());
    } else {
        let front = endpoints.drop_last();
        let last = endpoints.last();
        assert(paths_register_nothing(front)) by {
            assert forall|i: int| 0 <= i < front.len() implies occurrences(
                (#[trigger] front[i]).path,
                REGISTRATION@,
            ) == 0 by {
                assert(front[i] == endpoints[i]);
            }
        }
        lemma_handlers_register_once_each(front);
        lemma_handler_registers_once(last);
        assert(handlers(endpoints) =~= handlers(front).push(handler_text(last)));
        handlers(front).lemma_flatten_push(handler_text(last));
        lemma_occurrences_concat(handlers(front).flatten(), handler_text(last), REGISTRATION@);
    }
}

/// In the source of a REST project a handler is registered once for each
/// endpoint and twice more, for the root and the health handlers of the
/// fixed head, as long as no path of an endpoint holds the text of a
/// registration itself. Endpoints that share a path, and endpoints that are
/// equal, have a registration each.
pub proof fn lemma_registrations_count(endpoints: Seq<EndpointView>)
    requires
        paths_register_nothing(endpoints),
    ensures
        occurrences(rest_source(endpoints), REGISTRATION@) == endpoints.len() + 2,
{
    let pattern = REGISTRATION@;
    let generated = handlers(endpoints).flatten();
    lemma_registration_characters();
    lemma_head_registers_twice();
    lemma_tail_registers_nothing();
    lemma_handlers_register_once_each(endpoints);
    lemma_occurrences_concat(REST_HEAD@, generated, pattern);
    lemma_occurrences_concat(REST_HEAD@ + generated, REST_TAIL@, pattern);
}

} // verus!
