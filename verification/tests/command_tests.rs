use manami::commands::{echo, gpt, CommandOption, OptionKind, OptionValue};
use manami::gpt::{GptAI, GptModel};

fn s(name: &str, v: &str) -> CommandOption {
    CommandOption { name: name.to_owned(), value: OptionValue::String(v.to_owned()) }
}

fn i(name: &str, v: i64) -> CommandOption {
    CommandOption { name: name.to_owned(), value: OptionValue::Integer(v) }
}

#[test]
fn echo_returns_first_text() {
    assert_eq!(echo::run(vec![s("other", "x"), s("text", "hello"), s("text", "again")]), "hello");
    assert_eq!(echo::run(vec![i("text", 3)]), "");
    assert_eq!(echo::run(vec![]), "");
}

#[test]
fn echo_registration() {
    let c = echo::register();
    assert_eq!(c.name, "echo");
    assert_eq!(c.description, "もらったメッセージをそのまま返すよ！");
    assert_eq!(c.options.len(), 1);
    assert_eq!(c.options[0].kind, OptionKind::String);
    assert_eq!(c.options[0].name, "text");
    assert!(c.options[0].required);
}

#[test]
fn gpt_parse_takes_last_model() {
    assert_eq!(gpt::parse(vec![s("model", "gpt-5"), s("model", "gpt-5-mini")]), Some(GptModel::Gpt5Mini));
    assert_eq!(gpt::parse(vec![s("model", "unknown")]), Some(GptModel::Gpt5Nano));
    assert_eq!(gpt::parse(vec![i("model", 1)]), None);
}

#[test]
fn gpt_run_switches_model() {
    let mut ai = GptAI::new("k");
    assert_eq!(gpt::run(vec![s("model", "gpt-5")], &mut ai), "モデルをgpt-5に変更したよ");
    assert_eq!(ai.get_model(), GptModel::Gpt5);
    assert_eq!(gpt::run_body(None, &mut ai), "モデルをgpt-5に変更したよ");
    assert_eq!(ai.get_model(), GptModel::Gpt5);
    let c = gpt::register();
    assert_eq!(c.name, "gpt");
    assert_eq!(c.options[0].choices.len(), 3);
    assert_eq!(c.options[0].choices[1].value, "gpt-5-mini");
}

#[test]
fn auto_defaults_and_reply() {
    let mut ai = GptAI::new("k");
    ai.set_model(GptModel::Gpt5Mini);
    assert_eq!(manami::commands::auto::parse_options(vec![], &ai), (GptModel::Gpt5Mini, 300));
    assert_eq!(
        manami::commands::auto::parse_options(vec![i("sec", 10), s("model", "gpt-5"), i("sec", 42)], &ai),
        (GptModel::Gpt5, 42)
    );
    assert_eq!(manami::commands::auto::parse_options(vec![i("sec", -1)], &ai).1, u64::MAX);
    assert_eq!(
        manami::commands::auto::run_body(GptModel::Gpt5Nano, 300),
        "（全レスモード：300秒以内の連続した会話に対して、gpt-5-nanoで返信するよ）"
    );
    assert_eq!(
        manami::commands::auto::run(vec![i("sec", 0)], &ai).2,
        "（全レスモード：0秒以内の連続した会話に対して、gpt-5-miniで返信するよ）"
    );
    let c = manami::commands::auto::register();
    assert_eq!(c.name, "auto");
    assert_eq!(c.options.len(), 2);
    assert_eq!(c.options[1].min_int, Some(0));
    assert_eq!(c.options[1].max_int, Some(600));
}

#[test]
fn dispatch_by_name() {
    let mut ai = GptAI::new("k");
    let o = manami::commands::run_command("echo", vec![s("text", "hi")], &mut ai).unwrap();
    assert_eq!(o.reply, "hi");
    assert!(o.reply_to_all.is_none());
    let o = manami::commands::run_command("gpt", vec![s("model", "gpt-5")], &mut ai).unwrap();
    assert_eq!(o.reply, "モデルをgpt-5に変更したよ");
    assert_eq!(ai.get_model(), GptModel::Gpt5);
    let o = manami::commands::run_command("auto", vec![i("sec", 5)], &mut ai).unwrap();
    assert_eq!(o.reply_to_all, Some((GptModel::Gpt5, 5)));
    assert!(manami::commands::run_command("nope", vec![], &mut ai).is_none());
}
