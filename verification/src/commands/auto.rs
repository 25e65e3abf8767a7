//! `/auto [model] [sec]`: answers every message of a conversation for a while.
use vstd::prelude::*;

use super::{
    CommandOption, CommandSpec, OptionKind, OptionSpec, OptionValue, declared_models,
    find_last_integer, find_last_string, last_integer, last_string,
    law_model_choices_name_their_models, model_option, model_option_view,
};
use crate::gpt::{GptAI, GptModel, model_from_name, model_name};
use crate::text::{append_decimal, decimal};

verus! {

/// How long the mode lasts when no `sec` option is given, in seconds.
pub const DEFAULT_SECS: u64 = 300;

/// The model and the duration in seconds that the options pick: the last
/// `model` string, else the model in use; the last `sec` integer, taken as
/// an unsigned number, else `DEFAULT_SECS`.
pub open spec fn picked_settings(opts: Seq<CommandOption>, current: GptModel) -> (GptModel, u64) {
    (
        match last_string(opts, "model"@) {
            Some(name) => model_from_name(name),
            None => current,
        },
        match last_integer(opts, "sec"@) {
            Some(v) => v as u64,
            None => DEFAULT_SECS,
        },
    )
}

/// The reply announcing the mode.
pub open spec fn auto_reply(model: GptModel, secs: u64) -> Seq<char> {
    "（全レスモード："@ + decimal(secs as nat) + "秒以内の連続した会話に対して、"@ + model_name(model)
        + "で返信するよ）"@
}

/// Reads the model and the duration from the options.
pub fn parse_options(option: Vec<CommandOption>, ai: &GptAI) -> (r: (GptModel, u64))
    ensures
        r == picked_settings(option@, ai.current_model()),
{
    let model = match find_last_string(&option, "model") {
        Some(name) => GptModel::from_name(name.as_str()),
        None => ai.get_model(),
    };
    let secs = match find_last_integer(&option, "sec") {
        Some(v) => v as u64,
        None => DEFAULT_SECS,
    };
    (model, secs)
}

/// The reply announcing that every message within `secs` seconds of the
/// last is answered with `model`.
pub fn run_body(model: GptModel, secs: u64) -> (r: String)
    ensures
        r@ == auto_reply(model, secs),
{
    let mut msg = "（全レスモード：".to_owned();
    append_decimal(&mut msg, secs);
    msg.append("秒以内の連続した会話に対して、");
    msg.append(model.as_str());
    msg.append("で返信するよ）");
    msg
}

/// Runs `/auto` with the resolved options: the model and duration of the
/// mode to switch on, and the reply.
pub fn run(option: Vec<CommandOption>, ai: &GptAI) -> (r: (GptModel, u64, String))
    ensures
        (r.0, r.1) == picked_settings(option@, ai.current_model()),
        r.2@ == auto_reply(r.0, r.1),
{
    let (model, secs) = parse_options(option, ai);
    let msg = run_body(model, secs);
    (model, secs, msg)
}

/// The duration option: an integer from 0 to 600, not required.
pub open spec fn sec_option_view() -> <OptionSpec as View>::V {
    (OptionKind::Integer, "sec"@, "秒数"@, false, Seq::empty(), Some(0u64), Some(600u64))
}

/// The declaration of `/auto`.
pub open spec fn auto_command_view() -> <CommandSpec as View>::V {
    (
        "auto"@,
        "[sec]秒以内の連続した会話に対して、[model]を使って必ず返信するよ"@,
        seq![model_option_view(), sec_option_view()],
    )
}

/// Declares `/auto`: an optional model and an optional duration.
pub fn register() -> (r: CommandSpec)
    ensures
        r@ == auto_command_view(),
{
    let sec = OptionSpec {
        kind: OptionKind::Integer,
        name: "sec".to_owned(),
        description: "秒数".to_owned(),
        required: false,
        choices: Vec::new(),
        min_int: Some(0),
        max_int: Some(600),
    };
    assert(sec@.4 =~= Seq::<(Seq<char>, Seq<char>)>::empty());
    let mut options = Vec::new();
    options.push(model_option());
    options.push(sec);
    let r = CommandSpec {
        name: "auto".to_owned(),
        description: "[sec]秒以内の連続した会話に対して、[model]を使って必ず返信するよ".to_owned(),
        options,
    };
    assert(r@.2 =~= auto_command_view().2);
    r
}

/// `/auto` reads the options it declares: given its declared model option
/// holding the value of the `i`-th choice and its declared duration option
/// holding `v`, it picks the `i`-th model for `v` seconds (taken as an
/// unsigned number); the duration option takes integers from 0 to 600;
/// with no options it keeps the model in use for 300 seconds.
pub proof fn law_auto_reads_declared_options(
    m: CommandOption,
    choice: String,
    i: int,
    d: CommandOption,
    v: i64,
    current: GptModel,
)
    requires
        0 <= i < auto_command_view().2[0].4.len(),
        m.name@ == auto_command_view().2[0].1,
        m.value == OptionValue::String(choice),
        choice@ == auto_command_view().2[0].4[i].1,
        d.name@ == auto_command_view().2[1].1,
        d.value == OptionValue::Integer(v),
    ensures
        auto_command_view().2[1].0 == OptionKind::Integer,
        auto_command_view().2[1].5 == Some(0u64),
        auto_command_view().2[1].6 == Some(600u64),
        picked_settings(seq![m, d], current) == (declared_models()[i], v as u64),
        picked_settings(Seq::empty(), current) == (current, 300u64),
{
    law_model_choices_name_their_models();
    let opts = seq![m, d];
    assert(opts.last() == d);
    assert(opts.drop_last() =~= seq![m]);
    assert(seq![m].last() == m);
    assert(auto_command_view().2[0] == model_option_view());
    assert(m.name@ == "model"@);
    assert(d.name@ == "sec"@);
    assert(super::string_value(d, "model"@) is None);
    assert(super::string_value(m, "model"@) == Some(choice@));
    assert(last_string(seq![m], "model"@) == Some(choice@));
    assert(last_string(opts, "model"@) == Some(choice@));
    assert(last_integer(opts, "sec"@) == Some(v));
    assert(model_from_name(choice@) == declared_models()[i]);
}

} // verus!
