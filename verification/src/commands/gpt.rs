//! `/gpt <model>`: switches the model that answers.
use vstd::prelude::*;

use super::{
    CommandOption, CommandSpec, OptionValue, declared_models, find_last_string, last_string,
    law_model_choices_name_their_models, model_option, model_option_view,
};
use crate::gpt::{GptAI, GptModel, model_from_name, model_name};

verus! {

/// The model picked by the options: the last `model` option that holds a
/// string, read as a model name.
pub open spec fn picked_model(opts: Seq<CommandOption>) -> Option<GptModel> {
    match last_string(opts, "model"@) {
        Some(name) => Some(model_from_name(name)),
        None => None,
    }
}

/// The reply naming the model in use after the command.
pub open spec fn changed_reply(m: GptModel) -> Seq<char> {
    "モデルを"@ + model_name(m) + "に変更したよ"@
}

/// The model that the options pick, if any.
pub fn parse(option: Vec<CommandOption>) -> (r: Option<GptModel>)
    ensures
        r == picked_model(option@),
{
    match find_last_string(&option, "model") {
        Some(name) => Some(GptModel::from_name(name.as_str())),
        None => None,
    }
}

/// Switches to `model` when one was picked, and names the model in use.
pub fn run_body(model: Option<GptModel>, ai: &mut GptAI) -> (r: String)
    ensures
        final(ai).current_model() == (match model {
            Some(m) => m,
            None => old(ai).current_model(),
        }),
        r@ == changed_reply(final(ai).current_model()),
        final(ai).log() == old(ai).log(),
        final(ai).key() == old(ai).key(),
        final(ai).instruction() == old(ai).instruction(),
{
    let shown = match model {
        Some(m) => m,
        None => ai.get_model(),
    };
    let mut msg = "モデルを".to_owned();
    msg.append(shown.as_str());
    msg.append("に変更したよ");
    match model {
        Some(m) => {
            ai.set_model(m);
        },
        None => {},
    }
    msg
}

/// Runs `/gpt` with the resolved options.
pub fn run(option: Vec<CommandOption>, ai: &mut GptAI) -> (r: String)
    ensures
        final(ai).current_model() == (match picked_model(option@) {
            Some(m) => m,
            None => old(ai).current_model(),
        }),
        r@ == changed_reply(final(ai).current_model()),
        final(ai).log() == old(ai).log(),
        final(ai).key() == old(ai).key(),
        final(ai).instruction() == old(ai).instruction(),
{
    let model = parse(option);
    run_body(model, ai)
}

/// The declaration of `/gpt`.
pub open spec fn gpt_command_view() -> <CommandSpec as View>::V {
    ("gpt"@, "GPTの設定を変更するよ"@, seq![model_option_view()])
}

/// Declares `/gpt`: one optional model option.
pub fn register() -> (r: CommandSpec)
    ensures
        r@ == gpt_command_view(),
{
    let mut options = Vec::new();
    options.push(model_option());
    let r = CommandSpec {
        name: "gpt".to_owned(),
        description: "GPTの設定を変更するよ".to_owned(),
        options,
    };
    assert(r@.2 =~= gpt_command_view().2);
    r
}

/// `/gpt` reads the option it declares: given the declared model option
/// holding the value of its `i`-th choice, it picks the `i`-th model; when
/// the option comes twice the last one counts; with no model option it
/// picks nothing and keeps the model in use.
pub proof fn law_gpt_reads_declared_choice(o: CommandOption, v: String, i: int, first: CommandOption)
    requires
        0 <= i < gpt_command_view().2[0].4.len(),
        o.name@ == gpt_command_view().2[0].1,
        o.value == OptionValue::String(v),
        v@ == gpt_command_view().2[0].4[i].1,
        first.name@ == gpt_command_view().2[0].1,
    ensures
        picked_model(seq![o]) == Some(declared_models()[i]),
        picked_model(seq![first, o]) == Some(declared_models()[i]),
        picked_model(Seq::empty()) is None,
{
    law_model_choices_name_their_models();
    assert(declared_models()[i] == declared_models()[i]);
    assert(seq![o].last() == o);
    assert(seq![first, o].last() == o);
}

} // verus!
