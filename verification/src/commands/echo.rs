//! `/echo <text>`: answers with the text it was given.
use vstd::prelude::*;

use super::{CommandOption, CommandSpec, OptionKind, OptionSpec, OptionValue, find_first_string, first_string};

verus! {

/// The reply: the first `text` option that holds a string, or nothing.
pub open spec fn echo_reply(opts: Seq<CommandOption>) -> Seq<char> {
    match first_string(opts, "text"@) {
        Some(t) => t,
        None => Seq::empty(),
    }
}

/// Answers with the given text.
pub fn run(opt: Vec<CommandOption>) -> (r: String)
    ensures
        r@ == echo_reply(opt@),
{
    match find_first_string(&opt, "text") {
        Some(t) => t,
        None => String::new(),
    }
}

/// The declaration of `/echo`.
pub open spec fn echo_command_view() -> <CommandSpec as View>::V {
    (
        "echo"@,
        "もらったメッセージをそのまま返すよ！"@,
        seq![(OptionKind::String, "text"@, "返すテキスト"@, true, Seq::empty(), None, None)],
    )
}

/// Declares `/echo`: one required string option, the text.
pub fn register() -> (r: CommandSpec)
    ensures
        r@ == echo_command_view(),
{
    let text = OptionSpec {
        kind: OptionKind::String,
        name: "text".to_owned(),
        description: "返すテキスト".to_owned(),
        required: true,
        choices: Vec::new(),
        min_int: None,
        max_int: None,
    };
    assert(text@.4 =~= Seq::<(Seq<char>, Seq<char>)>::empty());
    let mut options: Vec<OptionSpec> = Vec::new();
    options.push(text);
    let r = CommandSpec {
        name: "echo".to_owned(),
        description: "もらったメッセージをそのまま返すよ！".to_owned(),
        options,
    };
    assert(r@.2 =~= echo_command_view().2);
    r
}

/// `/echo` reads the option it declares, which is required: given the
/// declared text option holding a text, it answers with that text, and when
/// the option comes twice the first one counts; with no text it answers
/// with nothing.
pub proof fn law_echo_reads_declared_option(o: CommandOption, t: String, o2: CommandOption, t2: String)
    requires
        o.name@ == echo_command_view().2[0].1,
        o.value == OptionValue::String(t),
        o2.name@ == echo_command_view().2[0].1,
        o2.value == OptionValue::String(t2),
    ensures
        echo_command_view().2[0].0 == OptionKind::String,
        echo_command_view().2[0].3,
        echo_reply(seq![o]) == t@,
        echo_reply(seq![o, o2]) == t@,
        echo_reply(Seq::empty()) == Seq::<char>::empty(),
{
    assert(seq![o].drop_first() =~= Seq::<CommandOption>::empty());
}

} // verus!
