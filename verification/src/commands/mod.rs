//! The slash commands: their options as the chat platform resolves them,
//! their registration, and what they do.
use vstd::prelude::*;

use crate::gpt::{GptAI, GptModel, law_model_name_roundtrip, model_from_name, model_name};
use crate::text::str_eq;

pub mod auto;
pub mod echo;
pub mod gpt;

verus! {

/// The value that the platform resolved for one option of a command.
#[derive(Clone, Debug)]
pub enum OptionValue {
    String(String),
    Integer(i64),
    /// A value of any other kind, which no command reads.
    Other,
}

/// One resolved option: its name and its value.
#[derive(Clone, Debug)]
pub struct CommandOption {
    pub name: String,
    pub value: OptionValue,
}

/// The string given for `o` when it is named `name` and holds a string.
pub open spec fn string_value(o: CommandOption, name: Seq<char>) -> Option<Seq<char>> {
    if o.name@ == name {
        match o.value {
            OptionValue::String(s) => Some(s@),
            _ => None,
        }
    } else {
        None
    }
}

/// The integer given for `o` when it is named `name` and holds an integer.
pub open spec fn integer_value(o: CommandOption, name: Seq<char>) -> Option<i64> {
    if o.name@ == name {
        match o.value {
            OptionValue::Integer(v) => Some(v),
            _ => None,
        }
    } else {
        None
    }
}

/// The string of the first option named `name` that holds one.
pub open spec fn first_string(opts: Seq<CommandOption>, name: Seq<char>) -> Option<Seq<char>>
    decreases opts.len(),
{
    if opts.len() == 0 {
        None
    } else if string_value(opts[0], name) is Some {
        string_value(opts[0], name)
    } else {
        first_string(opts.drop_first(), name)
    }
}

/// The string of the last option named `name` that holds one.
pub open spec fn last_string(opts: Seq<CommandOption>, name: Seq<char>) -> Option<Seq<char>>
    decreases opts.len(),
{
    if opts.len() == 0 {
        None
    } else if string_value(opts.last(), name) is Some {
        string_value(opts.last(), name)
    } else {
        last_string(opts.drop_last(), name)
    }
}

/// The integer of the last option named `name` that holds one.
pub open spec fn last_integer(opts: Seq<CommandOption>, name: Seq<char>) -> Option<i64>
    decreases opts.len(),
{
    if opts.len() == 0 {
        None
    } else if integer_value(opts.last(), name) is Some {
        integer_value(opts.last(), name)
    } else {
        last_integer(opts.drop_last(), name)
    }
}

/// The view of an optional string.
pub open spec fn opt_view(o: Option<String>) -> Option<Seq<char>> {
    match o {
        Some(s) => Some(s@),
        None => None,
    }
}

/// The string of the first option named `name` that holds one.
pub fn find_first_string(opts: &Vec<CommandOption>, name: &str) -> (r: Option<String>)
    ensures
        opt_view(r) == first_string(opts@, name@),
{
    let n = opts.len();
    let mut i: usize = 0;
    assert(opts@.skip(0) =~= opts@);
    while i < n
        invariant
            n == opts@.len(),
            i <= n,
            first_string(opts@, name@) == first_string(opts@.skip(i as int), name@),
        decreases n - i,
    {
        let o: &CommandOption = &opts[i];
        assert(opts@.skip(i as int)[0] == opts@[i as int]);
        assert(opts@.skip(i as int).drop_first() =~= opts@.skip(i + 1));
        if str_eq(o.name.as_str(), name) {
            match &o.value {
                OptionValue::String(s) => {
                    return Some(s.clone());
                },
                _ => {},
            }
        }
        i = i + 1;
    }
    None
}

/// The string of the last option named `name` that holds one.
pub fn find_last_string(opts: &Vec<CommandOption>, name: &str) -> (r: Option<String>)
    ensures
        opt_view(r) == last_string(opts@, name@),
{
    let n = opts.len();
    let mut found: Option<String> = None;
    let mut i: usize = 0;
    while i < n
        invariant
            n == opts@.len(),
            i <= n,
            opt_view(found) == last_string(opts@.take(i as int), name@),
        decreases n - i,
    {
        let o: &CommandOption = &opts[i];
        assert(opts@.take(i + 1).drop_last() =~= opts@.take(i as int));
        assert(opts@.take(i + 1).last() == opts@[i as int]);
        if str_eq(o.name.as_str(), name) {
            match &o.value {
                OptionValue::String(s) => {
                    found = Some(s.clone());
                },
                _ => {},
            }
        }
        i = i + 1;
    }
    assert(opts@.take(n as int) =~= opts@);
    found
}

/// The integer of the last option named `name` that holds one.
pub fn find_last_integer(opts: &Vec<CommandOption>, name: &str) -> (r: Option<i64>)
    ensures
        r == last_integer(opts@, name@),
{
    let n = opts.len();
    let mut found: Option<i64> = None;
    let mut i: usize = 0;
    while i < n
        invariant
            n == opts@.len(),
            i <= n,
            found == last_integer(opts@.take(i as int), name@),
        decreases n - i,
    {
        let o: &CommandOption = &opts[i];
        assert(opts@.take(i + 1).drop_last() =~= opts@.take(i as int));
        assert(opts@.take(i + 1).last() == opts@[i as int]);
        if str_eq(o.name.as_str(), name) {
            match &o.value {
                OptionValue::Integer(v) => {
                    found = Some(*v);
                },
                _ => {},
            }
        }
        i = i + 1;
    }
    assert(opts@.take(n as int) =~= opts@);
    found
}

/// The kind of value an option takes.
#[derive(Clone, Copy, Debug, PartialEq, Eq, Structural)]
pub enum OptionKind {
    String,
    Integer,
}

/// One fixed choice of a string option: the label shown and the value sent.
#[derive(Clone, Debug)]
pub struct OptionChoice {
    pub label: String,
    pub value: String,
}

/// The declaration of one option of a command.
#[derive(Clone, Debug)]
pub struct OptionSpec {
    pub kind: OptionKind,
    pub name: String,
    pub description: String,
    pub required: bool,
    pub choices: Vec<OptionChoice>,
    pub min_int: Option<u64>,
    pub max_int: Option<u64>,
}

/// The declaration of a command, as it is registered with the platform.
#[derive(Clone, Debug)]
pub struct CommandSpec {
    pub name: String,
    pub description: String,
    pub options: Vec<OptionSpec>,
}

impl View for OptionChoice {
    type V = (Seq<char>, Seq<char>);

    open spec fn view(&self) -> (Seq<char>, Seq<char>) {
        (self.label@, self.value@)
    }
}

impl View for OptionSpec {
    type V = (OptionKind, Seq<char>, Seq<char>, bool, Seq<(Seq<char>, Seq<char>)>, Option<u64>, Option<u64>);

    open spec fn view(&self) -> Self::V {
        (
            self.kind,
            self.name@,
            self.description@,
            self.required,
            self.choices@.map_values(|c: OptionChoice| c@),
            self.min_int,
            self.max_int,
        )
    }
}

impl View for CommandSpec {
    type V = (Seq<char>, Seq<char>, Seq<<OptionSpec as View>::V>);

    open spec fn view(&self) -> Self::V {
        (self.name@, self.description@, self.options@.map_values(|o: OptionSpec| o@))
    }
}

/// The model option shared by the commands that pick a model: a string,
/// not required, with one choice per model.
pub open spec fn model_option_view() -> <OptionSpec as View>::V {
    (
        OptionKind::String,
        "model"@,
        "モデル"@,
        false,
        seq![
            ("GPT-5"@, "gpt-5"@),
            ("GPT-5 mini"@, "gpt-5-mini"@),
            ("GPT-5 nano"@, "gpt-5-nano"@),
        ],
        None,
        None,
    )
}

fn choice(label: &str, value: &str) -> (r: OptionChoice)
    ensures
        r@ == (label@, value@),
{
    OptionChoice { label: label.to_owned(), value: value.to_owned() }
}

/// The model option.
pub fn model_option() -> (r: OptionSpec)
    ensures
        r@ == model_option_view(),
{
    let mut choices: Vec<OptionChoice> = Vec::new();
    choices.push(choice("GPT-5", "gpt-5"));
    choices.push(choice("GPT-5 mini", "gpt-5-mini"));
    choices.push(choice("GPT-5 nano", "gpt-5-nano"));
    let r = OptionSpec {
        kind: OptionKind::String,
        name: "model".to_owned(),
        description: "モデル".to_owned(),
        required: false,
        choices,
        min_int: None,
        max_int: None,
    };
    assert(r@.4 =~= model_option_view().4);
    r
}

/// The models in the order that their choices are declared.
pub open spec fn declared_models() -> Seq<GptModel> {
    seq![GptModel::Gpt5, GptModel::Gpt5Mini, GptModel::Gpt5Nano]
}

/// The declared model choices name the models: there is one choice per
/// model, labelled `GPT-5`, `GPT-5 mini` and `GPT-5 nano` in turn, and the
/// value each choice sends is the name of its model, which reads back as
/// that model; so every model can be picked, each by its own choice.
pub proof fn law_model_choices_name_their_models()
    ensures
        model_option_view().0 == OptionKind::String,
        model_option_view().1 == "model"@,
        !model_option_view().3,
        model_option_view().4.len() == declared_models().len(),
        model_option_view().4[0].0 == "GPT-5"@,
        model_option_view().4[1].0 == "GPT-5 mini"@,
        model_option_view().4[2].0 == "GPT-5 nano"@,
        forall|i: int|
            0 <= i < declared_models().len() ==> model_option_view().4[i].1 == model_name(
                #[trigger] declared_models()[i],
            ) && model_from_name(model_option_view().4[i].1) == declared_models()[i],
{
    assert forall|i: int| 0 <= i < declared_models().len() implies model_option_view().4[i].1
        == model_name(#[trigger] declared_models()[i]) && model_from_name(
        model_option_view().4[i].1,
    ) == declared_models()[i] by {
        law_model_name_roundtrip(declared_models()[i]);
    }
}

/// What a command did: its reply, and for `/auto` the model and duration
/// in seconds of the reply-to-all mode to switch on.
pub struct CommandOutcome {
    pub reply: String,
    pub reply_to_all: Option<(GptModel, u64)>,
}

/// Runs the command called `name` with its resolved options; `None` for a
/// name that is no command.
pub fn run_command(name: &str, options: Vec<CommandOption>, ai: &mut GptAI) -> (r: Option<CommandOutcome>)
    ensures
        name@ == "echo"@ ==> (r matches Some(o) && o.reply@ == echo::echo_reply(options@)
            && o.reply_to_all is None && *final(ai) == *old(ai)),
        name@ == "gpt"@ ==> (r matches Some(o) && o.reply_to_all is None
            && final(ai).current_model() == (match gpt::picked_model(options@) {
                Some(m) => m,
                None => old(ai).current_model(),
            }) && o.reply@ == gpt::changed_reply(final(ai).current_model())
            && final(ai).log() == old(ai).log() && final(ai).key() == old(ai).key()
            && final(ai).instruction() == old(ai).instruction()),
        name@ == "auto"@ ==> (r matches Some(o) && o.reply_to_all == Some(
            auto::picked_settings(options@, old(ai).current_model()),
        ) && o.reply@ == auto::auto_reply(
            auto::picked_settings(options@, old(ai).current_model()).0,
            auto::picked_settings(options@, old(ai).current_model()).1,
        ) && *final(ai) == *old(ai)),
        name@ != "echo"@ && name@ != "gpt"@ && name@ != "auto"@ ==> r is None && *final(ai)
            == *old(ai),
{
    proof {
        reveal_strlit("echo");
        reveal_strlit("gpt");
        reveal_strlit("auto");
        assert("echo"@.len() != "gpt"@.len());
        assert("echo"@[0] != "auto"@[0]);
        assert("gpt"@.len() != "auto"@.len());
    }
    if str_eq(name, "echo") {
        Some(CommandOutcome { reply: echo::run(options), reply_to_all: None })
    } else if str_eq(name, "gpt") {
        let reply = gpt::run(options, ai);
        Some(CommandOutcome { reply, reply_to_all: None })
    } else if str_eq(name, "auto") {
        let (model, secs, reply) = auto::run(options, ai);
        Some(CommandOutcome { reply, reply_to_all: Some((model, secs)) })
    } else {
        None
    }
}

} // verus!
