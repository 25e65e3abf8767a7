//! The GPT models and the OpenAI chat completion backend.
use std::collections::VecDeque;
use vstd::prelude::*;

use crate::ai::{ChatAI, ChatBackend, ChatMessage, Role, headers_view, log_view};
use crate::json::{json_string, json_string_literal, lemma_read_literal, read_json_literal};
use crate::text::str_eq;

verus! {

/// The GPT models that can answer.
#[derive(Clone, Copy, Debug, PartialEq, Eq, Structural)]
pub enum GptModel {
    Gpt5,
    Gpt5Mini,
    Gpt5Nano,
}

/// The name of a model, as the service and the commands spell it.
pub open spec fn model_name(m: GptModel) -> Seq<char> {
    match m {
        GptModel::Gpt5 => "gpt-5"@,
        GptModel::Gpt5Mini => "gpt-5-mini"@,
        GptModel::Gpt5Nano => "gpt-5-nano"@,
    }
}

/// The model a name stands for; an unknown name stands for the smallest model.
pub open spec fn model_from_name(s: Seq<char>) -> GptModel {
    if s == "gpt-5"@ {
        GptModel::Gpt5
    } else if s == "gpt-5-mini"@ {
        GptModel::Gpt5Mini
    } else if s == "gpt-5-nano"@ {
        GptModel::Gpt5Nano
    } else {
        GptModel::Gpt5Nano
    }
}

impl GptModel {
    /// The model's name.
    pub fn as_str(&self) -> (r: &'static str)
        ensures
            r@ == model_name(*self),
    {
        match self {
            GptModel::Gpt5 => "gpt-5",
            GptModel::Gpt5Mini => "gpt-5-mini",
            GptModel::Gpt5Nano => "gpt-5-nano",
        }
    }

    /// The model that `name` stands for.
    pub fn from_name(name: &str) -> (r: GptModel)
        ensures
            r == model_from_name(name@),
    {
        if str_eq(name, "gpt-5") {
            GptModel::Gpt5
        } else if str_eq(name, "gpt-5-mini") {
            GptModel::Gpt5Mini
        } else if str_eq(name, "gpt-5-nano") {
            GptModel::Gpt5Nano
        } else {
            GptModel::Gpt5Nano
        }
    }
}

impl Default for GptModel {
    /// The smallest model.
    fn default() -> (r: Self)
        ensures
            r == GptModel::Gpt5Nano,
    {
        GptModel::Gpt5Nano
    }
}

impl<'a> From<&'a str> for GptModel {
    /// The model that a name stands for.
    fn from(model: &'a str) -> (r: Self) {
        GptModel::from_name(model)
    }
}

impl<'a> vstd::std_specs::convert::FromSpecImpl<&'a str> for GptModel {
    open spec fn obeys_from_spec() -> bool {
        true
    }

    open spec fn from_spec(v: &'a str) -> Self {
        model_from_name(v@)
    }
}

/// Reading a model's name back gives the model.
pub proof fn law_model_name_roundtrip(m: GptModel)
    ensures
        model_from_name(model_name(m)) == m,
{
    reveal_strlit("gpt-5");
    reveal_strlit("gpt-5-mini");
    reveal_strlit("gpt-5-nano");
    assert("gpt-5"@.len() != "gpt-5-mini"@.len());
    assert("gpt-5"@.len() != "gpt-5-nano"@.len());
    assert("gpt-5-mini"@[6] != "gpt-5-nano"@[6]);
}

/// The role name that the service expects for a log entry.
pub open spec fn role_name(r: Role) -> Seq<char> {
    match r {
        Role::User => "user"@,
        Role::Model => "assistant"@,
    }
}

/// The `(role, content)` pairs of a request: the system instruction first
/// when it is not empty, then the log.
pub open spec fn request_messages(
    system_instruction: Seq<char>,
    log: Seq<(Role, Seq<char>)>,
) -> Seq<(Seq<char>, Seq<char>)> {
    (if system_instruction.len() == 0 {
        Seq::<(Seq<char>, Seq<char>)>::empty()
    } else {
        seq![("system"@, system_instruction)]
    }) + log.map_values(|e: (Role, Seq<char>)| (role_name(e.0), e.1))
}

/// One message as a JSON object.
pub open spec fn message_object(role: Seq<char>, content: Seq<char>) -> Seq<char> {
    "{\"role\":"@ + json_string_literal(role) + ",\"content\":"@ + json_string_literal(content)
        + "}"@
}

/// Message objects separated by commas.
pub open spec fn message_objects(ms: Seq<(Seq<char>, Seq<char>)>) -> Seq<char>
    decreases ms.len(),
{
    if ms.len() == 0 {
        Seq::empty()
    } else if ms.len() == 1 {
        message_object(ms[0].0, ms[0].1)
    } else {
        message_objects(ms.drop_last()) + seq![','] + message_object(ms.last().0, ms.last().1)
    }
}

/// The JSON request body: the model's name and the messages.
pub open spec fn request_json(
    model: GptModel,
    system_instruction: Seq<char>,
    log: Seq<(Role, Seq<char>)>,
) -> Seq<char> {
    "{\"model\":"@ + json_string_literal(model_name(model)) + ",\"messages\":["@ + message_objects(
        request_messages(system_instruction, log),
    ) + "]}"@
}

/// The outcome of reading a reply: an undecodable body is an error that
/// quotes the decoder and the body, no choices is an error, and otherwise
/// the first choice's text is the reply.
pub open spec fn reply_from_choices(
    body: Seq<char>,
    decoded: Result<Seq<Seq<char>>, Seq<char>>,
) -> Result<Seq<char>, Seq<char>> {
    match decoded {
        Err(e) => Err("Failed to parse response: "@ + e + "\n "@ + body),
        Ok(choices) => if choices.len() == 0 {
            Err("No choices found"@)
        } else {
            Ok(choices[0])
        },
    }
}

/// The text after the prefix `p` of `t`, when `t` starts with it.
pub open spec fn after_prefix(t: Seq<char>, p: Seq<char>) -> Option<Seq<char>> {
    if t.len() >= p.len() && t.subrange(0, p.len() as int) == p {
        Some(t.skip(p.len() as int))
    } else {
        None
    }
}

/// Reads one message object at the start of `t`: its role and content,
/// and the text after it.
pub open spec fn read_message_object(t: Seq<char>) -> Option<((Seq<char>, Seq<char>), Seq<char>)> {
    match after_prefix(t, "{\"role\":"@) {
        None => None,
        Some(t1) => match read_json_literal(t1) {
            None => None,
            Some((role, t2)) => match after_prefix(t2, ",\"content\":"@) {
                None => None,
                Some(t3) => match read_json_literal(t3) {
                    None => None,
                    Some((content, t4)) => match after_prefix(t4, "}"@) {
                        None => None,
                        Some(t5) => Some(((role, content), t5)),
                    },
                },
            },
        },
    }
}

/// Reads one or more message objects separated by commas.
pub open spec fn read_message_objects(t: Seq<char>) -> Option<(Seq<(Seq<char>, Seq<char>)>, Seq<char>)>
    decreases t.len(),
{
    match read_message_object(t) {
        None => None,
        Some((o, r)) => if r.len() > 0 && r[0] == ',' && r.len() <= t.len() {
            match read_message_objects(r.drop_first()) {
                Some((os, r2)) => Some((seq![o] + os, r2)),
                None => None,
            }
        } else {
            Some((seq![o], r))
        },
    }
}

/// Reads the message list of a request, up to its closing bracket.
pub open spec fn read_message_list(t: Seq<char>) -> Option<(Seq<(Seq<char>, Seq<char>)>, Seq<char>)> {
    if t.len() > 0 && t[0] == ']' {
        Some((Seq::empty(), t))
    } else {
        read_message_objects(t)
    }
}

/// Reads a request body: the model's name and the `(role, content)` pairs
/// of its messages, when the body has the request's shape.
pub open spec fn read_request(t: Seq<char>) -> Option<(Seq<char>, Seq<(Seq<char>, Seq<char>)>)> {
    match after_prefix(t, "{\"model\":"@) {
        None => None,
        Some(t1) => match read_json_literal(t1) {
            None => None,
            Some((model, t2)) => match after_prefix(t2, ",\"messages\":["@) {
                None => None,
                Some(t3) => match read_message_list(t3) {
                    None => None,
                    Some((ms, t4)) => if t4 == "]}"@ {
                        Some((model, ms))
                    } else {
                        None
                    },
                },
            },
        },
    }
}

proof fn lemma_after_prefix(p: Seq<char>, rest: Seq<char>)
    ensures
        after_prefix(p + rest, p) == Some(rest),
{
    assert((p + rest).subrange(0, p.len() as int) =~= p);
    assert((p + rest).skip(p.len() as int) =~= rest);
}

proof fn lemma_read_message_object(role: Seq<char>, content: Seq<char>, rest: Seq<char>)
    ensures
        read_message_object(message_object(role, content) + rest) == Some(((role, content), rest)),
{
    let a = "{\"role\":"@;
    let b = ",\"content\":"@;
    let c = "}"@;
    let t = message_object(role, content) + rest;
    assert(t =~= a + (json_string_literal(role) + (b + (json_string_literal(content) + (c + rest)))));
    lemma_after_prefix(a, json_string_literal(role) + (b + (json_string_literal(content) + (c + rest))));
    lemma_read_literal(role, b + (json_string_literal(content) + (c + rest)));
    lemma_after_prefix(b, json_string_literal(content) + (c + rest));
    lemma_read_literal(content, c + rest);
    lemma_after_prefix(c, rest);
}

/// Writing the first of several messages: its object, a comma, the rest.
proof fn lemma_message_objects_front(m: (Seq<char>, Seq<char>), ms: Seq<(Seq<char>, Seq<char>)>)
    requires
        ms.len() >= 1,
    ensures
        message_objects(seq![m] + ms) == message_object(m.0, m.1) + seq![','] + message_objects(ms),
    decreases ms.len(),
{
    let all = seq![m] + ms;
    assert(all.drop_last() =~= seq![m] + ms.drop_last());
    assert(all.last() == ms.last());
    if ms.len() == 1 {
        assert(seq![m].drop_last() =~= Seq::<(Seq<char>, Seq<char>)>::empty());
        assert(message_objects(seq![m]) == message_object(m.0, m.1));
        assert(message_objects(ms) == message_object(ms[0].0, ms[0].1));
    } else {
        lemma_message_objects_front(m, ms.drop_last());
    }
}

#[verifier::rlimit(60)]
proof fn lemma_read_message_objects(ms: Seq<(Seq<char>, Seq<char>)>)
    requires
        ms.len() >= 1,
    ensures
        read_message_objects(message_objects(ms) + "]}"@) == Some((ms, "]}"@)),
    decreases ms.len(),
{
    let m = ms[0];
    let tail = ms.drop_first();
    let end = "]}"@;
    if ms.len() == 1 {
        reveal_strlit("]}");
        lemma_read_message_object(m.0, m.1, end);
        assert(message_objects(ms) == message_object(m.0, m.1));
        assert(end[0] != ',');
        assert(seq![m] =~= ms);
    } else {
        assert(seq![m] + tail =~= ms);
        lemma_message_objects_front(m, tail);
        lemma_read_message_objects(tail);
        let rest = seq![','] + (message_objects(tail) + end);
        let t = message_objects(ms) + end;
        assert(t =~= message_object(m.0, m.1) + rest);
        lemma_read_message_object(m.0, m.1, rest);
        assert(rest.drop_first() =~= message_objects(tail) + end);
        assert(rest[0] == ',');
        assert(read_message_object(t) == Some((m, rest)));
        assert(read_message_objects(rest.drop_first()) == Some((tail, end)));
        assert(read_message_objects(t) == Some((seq![m] + tail, end)));
    }
}

/// A request body reads back as the model's name and its messages: the
/// system instruction first when it is not empty, then every log entry
/// with its role and text, in order, with every character recovered.
#[verifier::rlimit(60)]
pub proof fn law_request_body_reads_back(
    model: GptModel,
    system_instruction: Seq<char>,
    log: Seq<(Role, Seq<char>)>,
)
    ensures
        read_request(request_json(model, system_instruction, log)) == Some(
            (model_name(model), request_messages(system_instruction, log)),
        ),
{
    reveal_strlit("]}");
    reveal_strlit("{\"role\":");
    let ms = request_messages(system_instruction, log);
    let p = "{\"model\":"@;
    let q = ",\"messages\":["@;
    let rest = message_objects(ms) + "]}"@;
    let t = request_json(model, system_instruction, log);
    assert(t =~= p + (json_string_literal(model_name(model)) + (q + rest)));
    lemma_after_prefix(p, json_string_literal(model_name(model)) + (q + rest));
    lemma_read_literal(model_name(model), q + rest);
    lemma_after_prefix(q, rest);
    if ms.len() == 0 {
        assert(message_objects(ms) =~= Seq::<char>::empty());
        assert(rest =~= "]}"@);
    } else {
        lemma_read_message_objects(ms);
        assert(message_objects(ms) == message_object(ms[0].0, ms[0].1) || ms.len() > 1);
        assert(rest[0] == '{') by {
            if ms.len() == 1 {
                assert(rest =~= "{\"role\":"@ + (json_string_literal(ms[0].0) + (",\"content\":"@
                    + json_string_literal(ms[0].1) + "}"@ + "]}"@)));
            } else {
                lemma_message_objects_front(ms[0], ms.drop_first());
                assert(seq![ms[0]] + ms.drop_first() =~= ms);
                assert(rest =~= "{\"role\":"@ + (json_string_literal(ms[0].0) + (",\"content\":"@
                    + json_string_literal(ms[0].1) + "}"@ + seq![','] + message_objects(
                    ms.drop_first(),
                ) + "]}"@)));
            }
        }
    }
}

/// For the GPT client, `get_model` gives the model that the last
/// `set_model` set, or the default model when none was set:
/// `new` and `manami` start with the default, `set_model` makes its
/// argument the current model, every other operation keeps it, and
/// `get_model` returns a clone of it, which for a model is the model itself.
pub proof fn law_get_model_returns_last_set(ai: GptAI, got: GptModel)
    requires
        cloned(ai.current_model(), got),
    ensures
        got == ai.current_model(),
        call_ensures(<GptModel as Default>::default, (), ai.current_model())
            ==> got == GptModel::Gpt5Nano,
{
}

/// The OpenAI chat completion service.
pub struct GptBackend;

/// Appends one message object to a body under construction.
fn append_message_object(body: &mut String, role: &str, content: &str)
    ensures
        final(body)@ == old(body)@ + message_object(role@, content@),
{
    body.append("{\"role\":");
    let r = json_string(role);
    body.append(r.as_str());
    body.append(",\"content\":");
    let c = json_string(content);
    body.append(c.as_str());
    body.append("}");
}

impl ChatBackend for GptBackend {
    type Model = GptModel;

    open spec fn endpoint_spec(model: GptModel) -> Seq<char> {
        "https://api.openai.com/v1/chat/completions"@
    }

    open spec fn headers_spec(api_key: Seq<char>) -> Seq<(Seq<char>, Seq<char>)> {
        seq![("Authorization"@, "Bearer "@ + api_key)]
    }

    open spec fn body_spec(
        model: GptModel,
        system_instruction: Seq<char>,
        log: Seq<(Role, Seq<char>)>,
    ) -> Seq<char> {
        request_json(model, system_instruction, log)
    }

    open spec fn reply_spec(
        body: Seq<char>,
        decoded: Result<Seq<Seq<char>>, Seq<char>>,
    ) -> Result<Seq<char>, Seq<char>> {
        reply_from_choices(body, decoded)
    }

    fn endpoint(model: &GptModel) -> (url: String) {
        "https://api.openai.com/v1/chat/completions".to_owned()
    }

    fn headers(api_key: &str) -> (h: Vec<(&'static str, String)>) {
        let mut value = "Bearer ".to_owned();
        value.append(api_key);
        let mut h: Vec<(&'static str, String)> = Vec::new();
        h.push(("Authorization", value));
        assert(headers_view(h@) =~= Self::headers_spec(api_key@));
        h
    }

    fn build_body(
        model: &GptModel,
        system_instruction: &str,
        contents: &VecDeque<ChatMessage>,
    ) -> (body: String) {
        let ghost ms = request_messages(system_instruction@, log_view(contents@));
        let mut body = "{\"model\":".to_owned();
        let name = json_string(model.as_str());
        body.append(name.as_str());
        body.append(",\"messages\":[");
        let ghost head = body@;
        let mut need_comma = false;
        if !system_instruction.is_empty() {
            append_message_object(&mut body, "system", system_instruction);
            need_comma = true;
            assert(ms.take(1) =~= seq![ms[0]]);
        } else {
            assert(ms.take(0) =~= Seq::<(Seq<char>, Seq<char>)>::empty());
        }
        let n = contents.len();
        let ghost offset: int = if need_comma { 1int } else { 0int };
        let mut i: usize = 0;
        while i < n
            invariant
                n == contents@.len(),
                i <= n,
                offset == (if system_instruction@.len() == 0 { 0int } else { 1int }),
                need_comma == (offset + i > 0),
                ms == request_messages(system_instruction@, log_view(contents@)),
                ms.len() == offset + n,
                body@ == head + message_objects(ms.take(offset + i)),
            decreases n - i,
        {
            let m: &ChatMessage = &contents[i];
            let role = match m.role {
                Role::User => "user",
                Role::Model => "assistant",
            };
            let ghost prev = body@;
            let ghost k = offset + i;
            if need_comma {
                body.append(",");
            }
            append_message_object(&mut body, role, m.text.as_str());
            proof {
                reveal_strlit(",");
                assert(ms[k] == (role@, m.text@));
                assert(ms.take(k + 1).drop_last() =~= ms.take(k));
                assert(ms.take(k + 1).last() == ms[k]);
            }
            need_comma = true;
            i = i + 1;
        }
        assert(ms.take(offset + n) =~= ms);
        body.append("]}");
        body
    }

    /// Reads the reply out of a response `body`, given what decoding it
    /// gave: the texts of its choices in order, or the decoder's message.
    fn parse_response(body: &str, decoded: Result<Vec<String>, String>) -> (r: Result<String, String>) {
        match decoded {
            Err(e) => {
                let mut msg = "Failed to parse response: ".to_owned();
                msg.append(e.as_str());
                msg.append("\n ");
                msg.append(body);
                Err(msg)
            },
            Ok(choices) => {
                if choices.len() == 0 {
                    Err("No choices found".to_owned())
                } else {
                    let first: String = choices[0].clone();
                    Ok(first)
                }
            },
        }
    }
}

/// The chat client that talks to GPT.
pub type GptAI = ChatAI<GptBackend>;

} // verus!
