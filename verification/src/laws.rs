//! Laws that relate the operations of the registry, of the node and of the
//! port-number text to one another.

use vstd::prelude::*;

use crate::json::{get_spec, Json};
use crate::model::{NodeInfo, NodeRecord, RegisterRequest, Timestamp};
use crate::node::{
    generated_text, is_text_object, port_setting, prompt_of, supports_spec, registration_report_spec, RegistrationReply,
    RegistrationReport,
};
use crate::registry::{lists, record_for, valid_registry};
use crate::text::{
    all_digits, decimal, digit_char, digit_value, digits_value, is_digit, parse_u16_spec,
};

verus! {

/// A node that has just been registered is listed with what its
/// registration said: every listing of the registry that results holds
/// exactly one entry with the node's id, that entry is the registered
/// record, and the listing is one entry longer than before when the id was
/// new (as long as before when a node with that id was replaced).
pub proof fn law_registered_node_is_listed(
    before: Map<u128, NodeRecord>,
    id: u128,
    req: RegisterRequest,
    t: Timestamp,
    listed: Seq<NodeInfo>,
)
    requires
        valid_registry(before),
        lists(before.insert(id, record_for(id, req, t)), listed),
    ensures
        listed.len() == before.dom().len() + (if before.contains_key(id) { 0int } else { 1int }),
        exists|i: int| 0 <= i < listed.len() && listed[i].id == id,
        forall|i: int| 0 <= i < listed.len() && listed[i].id == id ==> listed[i]@ == record_for(id, req, t),
        forall|i: int|
            0 <= i < listed.len() && listed[i].id == id ==> {
                &&& listed[i].name@ == req.name@
                &&& listed[i].url@ == req.url@
                &&& listed[i].capabilities@ == req.capabilities@
                &&& listed[i].capabilities@.len() == req.capabilities@.len()
                &&& listed[i].registered_at == t
            },
{
    let after = before.insert(id, record_for(id, req, t));
    assert(after.contains_key(id));
    if before.contains_key(id) {
        assert(after.dom() =~= before.dom());
    } else {
        assert(after.dom() =~= before.dom().insert(id));
    }
}

/// A node that has just been deregistered is no longer listed: no entry of
/// a listing of the resulting registry carries its id, and the listing is
/// one entry shorter than before when the node was registered (as long as
/// before when it was not).
pub proof fn law_deregistered_node_is_not_listed(
    before: Map<u128, NodeRecord>,
    id: u128,
    listed: Seq<NodeInfo>,
)
    requires
        valid_registry(before),
        lists(before.remove(id), listed),
    ensures
        listed.len() == before.dom().len() - (if before.contains_key(id) { 1int } else { 0int }),
        forall|i: int| 0 <= i < listed.len() ==> listed[i].id != id,
{
    let after = before.remove(id);
    if before.contains_key(id) {
        assert(after.dom() =~= before.dom().remove(id));
    } else {
        assert(after.dom() =~= before.dom());
    }
    assert forall|i: int| 0 <= i < listed.len() implies listed[i].id != id by {
        assert(after.contains_key(listed[i].id));
    }
}

/// Registering a node under a new id and then deregistering that id gives
/// back the registry as it was.
pub proof fn law_register_then_deregister_restores(
    before: Map<u128, NodeRecord>,
    id: u128,
    req: RegisterRequest,
    t: Timestamp,
)
    requires
        valid_registry(before),
        !before.contains_key(id),
    ensures
        before.insert(id, record_for(id, req, t)).remove(id) == before,
{
    assert(before.insert(id, record_for(id, req, t)).remove(id) =~= before);
}

/// Deregistering an id that is not registered changes nothing; in
/// particular, deregistering the same id twice finds nothing the second
/// time and leaves the registry as the first call left it.
pub proof fn law_deregister_unknown_changes_nothing(before: Map<u128, NodeRecord>, id: u128)
    requires
        valid_registry(before),
    ensures
        !before.contains_key(id) ==> before.remove(id) == before,
        !before.remove(id).contains_key(id),
        before.remove(id).remove(id) == before.remove(id),
{
    assert(before.remove(id).remove(id) =~= before.remove(id));
    if !before.contains_key(id) {
        assert(before.remove(id) =~= before);
    }
}

proof fn lemma_digit_char(d: int)
    requires
        0 <= d < 10,
    ensures
        is_digit(digit_char(d)),
        digit_value(digit_char(d)) == d,
        digit_char(d) != '+',
{
    let s = seq!['0', '1', '2', '3', '4', '5', '6', '7', '8', '9'];
    assert(s[0] == '0' && s[1] == '1' && s[2] == '2' && s[3] == '3' && s[4] == '4');
    assert(s[5] == '5' && s[6] == '6' && s[7] == '7' && s[8] == '8' && s[9] == '9');
}

proof fn lemma_decimal_digits(n: nat)
    ensures
        decimal(n).len() > 0,
        all_digits(decimal(n)),
        digits_value(decimal(n)) == n,
        decimal(n)[0] != '+',
    decreases n,
{
    if n < 10 {
        lemma_digit_char(n as int);
        assert(decimal(n).drop_last() =~= Seq::<char>::empty());
        assert(digits_value(Seq::<char>::empty()) == 0);
        assert(digits_value(decimal(n)) == 10 * digits_value(decimal(n).drop_last()) + digit_value(decimal(n).last()));
    } else {
        lemma_decimal_digits(n / 10);
        lemma_digit_char((n % 10) as int);
        let s = decimal(n / 10);
        let c = digit_char((n % 10) as int);
        assert(decimal(n) == s.push(c));
        assert(s.push(c).drop_last() =~= s);
        assert(digits_value(s.push(c)) == 10 * digits_value(s) + digit_value(c));
        assert(10 * (n / 10) + n % 10 == n);
        assert(all_digits(s.push(c))) by {
            assert forall|i: int| 0 <= i < s.push(c).len() implies is_digit(#[trigger] s.push(c)[i]) by {
                if i < s.len() {
                    assert(s.push(c)[i] == s[i]);
                }
            }
        }
    }
}

/// Reading back the decimal text of a port number gives the number: what
/// `u16_text` writes, `parse_u16` reads as the same port.
pub proof fn law_port_text_reads_back(n: u16)
    ensures
        parse_u16_spec(decimal(n as nat)) == Some(n),
{
    lemma_decimal_digits(n as nat);
}

/// A node takes an id from the broker exactly when the broker answered with
/// a success status and a body naming that id; unreachable brokers, error
/// statuses and unreadable answers never register it.
pub proof fn law_only_successful_answers_register(reply: RegistrationReply, id: u128)
    ensures
        registration_report_spec(reply) == RegistrationReport::Registered(id) <==> (
        reply matches RegistrationReply::Answered { status, id: Some(given) } && 200 <= status
            <= 299 && given == id),
{
}

/// Looking a key up in a JSON object finds it wherever it stands: the
/// lookup gives nothing exactly when no member has the key, and otherwise
/// gives the value of the first member that has it.
pub proof fn law_lookup_finds_key_anywhere(members: Vec<(String, Json)>, key: Seq<char>)
    ensures
        get_spec(Json::Object(members), key) is None <==> (forall|i: int|
            0 <= i < members@.len() ==> #[trigger] members@[i].0@ != key),
        forall|i: int|
            0 <= i < members@.len() && #[trigger] members@[i].0@ == key && (forall|j: int|
                0 <= j < i ==> members@[j].0@ != key) ==> get_spec(Json::Object(members), key)
                == Some(members@[i].1),
{
    lemma_member_first_match(members@, key);
}

proof fn lemma_member_first_match(m: Seq<(String, Json)>, key: Seq<char>)
    ensures
        crate::json::member(m, key) is None <==> (forall|i: int|
            0 <= i < m.len() ==> #[trigger] m[i].0@ != key),
        forall|i: int|
            0 <= i < m.len() && #[trigger] m[i].0@ == key && (forall|j: int|
                0 <= j < i ==> m[j].0@ != key) ==> crate::json::member(m, key) == Some(m[i].1),
    decreases m.len(),
{
    if m.len() > 0 {
        let rest = m.drop_first();
        lemma_member_first_match(rest, key);
        assert forall|i: int| 0 < i < m.len() implies m[i] == rest[i - 1] by {}
        if m[0].0@ != key {
            assert((forall|i: int| 0 <= i < m.len() ==> #[trigger] m[i].0@ != key) <==> (forall|i: int|
                0 <= i < rest.len() ==> #[trigger] rest[i].0@ != key)) by {
                if forall|i: int| 0 <= i < rest.len() ==> #[trigger] rest[i].0@ != key {
                    assert forall|i: int| 0 <= i < m.len() implies #[trigger] m[i].0@ != key by {
                        if i > 0 {
                            assert(rest[i - 1].0@ != key);
                        }
                    }
                }
                if forall|i: int| 0 <= i < m.len() ==> #[trigger] m[i].0@ != key {
                    assert forall|i: int| 0 <= i < rest.len() implies #[trigger] rest[i].0@ != key by {
                        assert(m[i + 1].0@ != key);
                    }
                }
            }
            assert forall|i: int|
                0 <= i < m.len() && #[trigger] m[i].0@ == key && (forall|j: int|
                    0 <= j < i ==> m[j].0@ != key) implies crate::json::member(m, key) == Some(m[i].1) by {
                assert(i > 0);
                assert(rest[i - 1].0@ == key);
                assert forall|j: int| 0 <= j < i - 1 implies rest[j].0@ != key by {
                    assert(m[j + 1].0@ != key);
                }
            }
        } else {
            assert(m[0].0@ == key);
        }
    }
}

/// Text generation answers with the whole prompt: when the first member
/// named `prompt` of the input object is the text `p`, wherever that member
/// stands, the generated text is `[generated] ` followed by all of `p`, so
/// it is 12 characters longer than `p` and ends with `p`.
pub proof fn law_text_generation_uses_whole_prompt(
    members: Vec<(String, Json)>,
    i: int,
    p: String,
)
    requires
        0 <= i < members@.len(),
        members@[i].0@ == "prompt"@,
        members@[i].1 == Json::Str(p),
        forall|j: int| 0 <= j < i ==> members@[j].0@ != "prompt"@,
    ensures
        prompt_of(Json::Object(members)) == p@,
        generated_text(prompt_of(Json::Object(members))) == "[generated] "@ + p@,
        generated_text(prompt_of(Json::Object(members))).len() == 12 + p@.len(),
        generated_text(prompt_of(Json::Object(members))).subrange(12, 12 + p@.len() as int) == p@,
{
    law_lookup_finds_key_anywhere(members, "prompt"@);
    assert(members@[i].0@ == "prompt"@);
    reveal_strlit("[generated] ");
    let g = generated_text(p@);
    assert(g.subrange(12, 12 + p@.len() as int) =~= p@);
}

/// Text generation with no usable prompt answers `[generated] ` alone:
/// when no member of the input object is named `prompt`, the generated
/// text is exactly the prefix.
pub proof fn law_text_generation_without_prompt(members: Vec<(String, Json)>)
    requires
        forall|j: int| 0 <= j < members@.len() ==> #[trigger] members@[j].0@ != "prompt"@,
    ensures
        generated_text(prompt_of(Json::Object(members))) == "[generated] "@,
{
    law_lookup_finds_key_anywhere(members, "prompt"@);
    reveal_strlit("");
    assert("[generated] "@ + ""@ =~= "[generated] "@);
}

/// A port setting that reads as a port number is the configured port,
/// whatever number it is; the default 4000 is used only when the setting is
/// missing or does not read as a port.
pub proof fn law_port_setting_is_taken_as_given(p: String, n: u16)
    ensures
        parse_u16_spec(p@) == Some(n) ==> port_setting(Some(p)) == n,
        parse_u16_spec(p@) is None ==> port_setting(Some(p)) == 4000,
        port_setting(None) == 4000,
{
}

/// The answer `{"text": t}` of text generation holds `t` under the key
/// `text`, and holds no other text there.
pub proof fn law_text_answer_holds_its_text(out: Json, t: Seq<char>, u: Seq<char>)
    ensures
        is_text_object(out, t) ==> (get_spec(out, "text"@) matches Some(Json::Str(s)) && s@ == t),
        is_text_object(out, t) && is_text_object(out, u) ==> t == u,
{
    if is_text_object(out, t) {
        if let Json::Object(members) = out {
            law_lookup_finds_key_anywhere(members, "text"@);
        }
    }
}

/// A node supports exactly the capabilities it advertises: every
/// advertised name is supported, and a name that no advertised capability
/// carries is not.
pub proof fn law_supports_exactly_advertised(caps: Seq<crate::model::Capability>, name: Seq<char>)
    ensures
        forall|i: int| 0 <= i < caps.len() ==> supports_spec(caps, #[trigger] caps[i].name@),
        (forall|i: int| 0 <= i < caps.len() ==> #[trigger] caps[i].name@ != name) ==> !supports_spec(
            caps,
            name,
        ),
{
}

} // verus!
