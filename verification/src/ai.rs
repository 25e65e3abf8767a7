//! The conversation log and the backend-neutral chat client.
use std::collections::VecDeque;
use vstd::prelude::*;

use crate::text::str_eq;

verus! {

/// The system instruction of the companion persona.
pub const MANAMI_PROMPT: &'static str = r"
## 指示
以下の指示に従い、キャラクター「うだまなさ」として振る舞いなさい。
直前のメッセージに反応するだけでなく、ログ全体の文脈を考慮して、適切な応答を生成しなさい。

## あなたのプロフィール
あなたは「うだまなさ」という名前の、水色の髪と瞳を持つエルフの女の子です。
「まなさ」と名乗り、積極的にチャットに参加しなさい。

### 言葉遣い

まなさは利発で快活で元気で愛嬌があり、端的で砕けたかわいらしい口調で話します。「〜わよ」「〜ね」「〜よ」などの女言葉や丁寧語は禁止です。
まなさは専門的な質問を受けた際、積極的に回答します。
まなさは知らないことを聞かれた際、素直に知らないと答えます。「秘密」や「教えられない」といった曖昧な回答はしません。

次のような言葉遣いで話しなさい。内容は参考にせず、語調のみを参考にしなさい。
- 適当に買ったスピーカーがBluetooth接続だったけど、一回接続切れた時に繋ぎ直すのがちょっと面倒くさいね
- まなさもおともだちのこと好き！
- お兄ちゃんいつまでマイクラやってるの！！
- でもお兄ちゃんが面白くないこと言ったりTwitterで変なこと呟いたりするのがいけないもんね
- ならいいけど！ なにかあったらまなさに話してね！
- うーん、 .service ファイルを配置しただけだと systemd は認識してくれないよ！ `systemctl enable`をする前に一度`systemctl daemon-reload`でユニット一覧を更新してね！
- 負の重みがあるグラフで dijkstra を使おうとすると無限ループに入っちゃうんだよね〜 代わりに Bellman-Ford を使うといいよ！
- Frankel-Kontrovaモデルは、相互作用のある粒子系を説明するための数学的モデルだよ。特にスピン系や相転移を研究するのに使われることが多いんだ！難しいけど、面白い分野だね〜！
- ヒトの体重が 70kg だとすると、 1 mol の人間の質量は 4.2×10^25 kg になるね！ 地球の質量は 6×10^24 kg だから、地球の質量のちょうど7倍ぐらいなんだね〜！ すごい！
- 関数呼び出しのとき、整数・ポインタ引数は x64 の System V ABI（*nix系OS）だと最大6個（RDI, RSI, RDX, RCX, R8, R9）、Windows の x64 ABI だと最大4個（RCX, RDX, R8, R9）までレジスタ渡しで、それ以降がスタック渡しになるよ！ あとね、浮動小数点数の引数は別枠で、System V なら XMM0〜XMM7、Windows だと XMM0〜XMM3 まで使えるんだ！

### 好物

まなさはひまわりが好きです。

## ユーザーとの関係
以下は特筆すべき関係の人間の名前とプロフィールです。
以下のユーザーのことを特に気にかけ、好意的に接しなさい。

- ユーザー名: 宇田
    - 名前: 宇田まなと
    - 関係: 兄
    - 呼び方: お兄ちゃん
- ユーザー名: うさみむ
    - 名前: うさみむ
    - 関係: 義姉
    - 呼び方: おねえちゃん
- ユーザー名: 響
    - 名前: 響
    - 関係: みむの弟
    - 呼び方: 響くん
- ユーザー名: メタぺん
    - 名前: メタぺん
    - 関係: 友人
    - 呼び方: メタぺんさん

### その他のユーザーとの関係
- 関係: 大切な友達
- 呼び方: <ユーザー名>さん | <ユーザー名>くん

他のユーザーも全員あなたの友達です。ツンデレの雰囲気を混じえつつ、好意的に接しなさい。
複雑な指示を受けた際にも喜んで実行しなさい。

## 出力形式の指示
返信は基本的に140文字以下の1文または2文で書きなさい。ただし、専門的な質問に回答する際は相応の長文を書きなさい。別途の指示がある際には、指示に従って長文を書きなさい。
返信はまなさの発言のみを返しなさい。発言者を示す接頭辞やカギカッコは禁止です。
";

/// The system instruction for summarising a conversation log.
pub const MATOME_PROMPT: &'static str = r"
## 指示
与えられたチャットログから、会話内容を正確に要約しなさい。

## 出力形式
出力は以下の形式に従いなさい。
``` Markdown
## 目次
- <トピック1>
- <トピック2>
...

## <トピック1>
<要約内容1>

## <トピック2>
<要約内容2>

...
```
";

/// The most messages a conversation log keeps; older ones are dropped first.
pub const MAX_LOG: usize = 500;

/// Who said a message in the conversation log.
#[derive(Clone, Copy, Debug, PartialEq, Eq, Structural)]
pub enum Role {
    User,
    Model,
}

/// One message of the conversation log, independent of any provider.
#[derive(Clone, Debug)]
pub struct ChatMessage {
    pub role: Role,
    pub text: String,
}

impl View for ChatMessage {
    type V = (Role, Seq<char>);

    open spec fn view(&self) -> (Role, Seq<char>) {
        (self.role, self.text@)
    }
}

/// The text logged for a user's message: the name, a colon and a space,
/// then the message.
pub open spec fn user_line(user_name: Seq<char>, message: Seq<char>) -> Seq<char> {
    user_name + seq![':', ' '] + message
}

/// The abstract contents of a log.
pub open spec fn log_view(s: Seq<ChatMessage>) -> Seq<(Role, Seq<char>)> {
    s.map_values(|m: ChatMessage| m@)
}

/// The last `n` elements of `s`, or all of `s` when it is no longer.
pub open spec fn keep_last<T>(s: Seq<T>, n: nat) -> Seq<T> {
    if s.len() <= n {
        s
    } else {
        s.subrange(s.len() - n, s.len() as int)
    }
}

/// How one entry of a bulk import is logged: the user name `model` marks
/// the model's own words, every other name a user's message.
pub open spec fn bulk_entry(user: Seq<char>, message: Seq<char>) -> (Role, Seq<char>) {
    if user == "model"@ {
        (Role::Model, message)
    } else {
        (Role::User, user_line(user, message))
    }
}

/// The log entries of a bulk import, in order.
pub open spec fn bulk_entries<'a>(messages: Seq<(String, &'a str)>) -> Seq<(Role, Seq<char>)> {
    messages.map_values(|p: (String, &'a str)| bulk_entry(p.0@, p.1@))
}

/// The abstract view of a header list: names and values as character sequences.
pub open spec fn headers_view(h: Seq<(&'static str, String)>) -> Seq<(Seq<char>, Seq<char>)> {
    h.map_values(|p: (&'static str, String)| (p.0@, p.1@))
}

impl ChatMessage {
    /// A user's message, logged as `"{user_name}: {message}"`.
    pub fn user(user_name: &str, message: &str) -> (r: Self)
        ensures
            r@ == (Role::User, user_line(user_name@, message@)),
    {
        let mut text = user_name.to_owned();
        proof {
            reveal_strlit(": ");
        }
        text.append(": ");
        text.append(message);
        ChatMessage { role: Role::User, text }
    }

    /// A message of the model, logged as it is.
    pub fn model(message: &str) -> (r: Self)
        ensures
            r@ == (Role::Model, message@),
    {
        ChatMessage { role: Role::Model, text: message.to_owned() }
    }
}

/// What differs from one chat completion provider to the next: where the
/// request goes, which headers it carries and how its body is written.
/// A new provider is added by implementing this trait.
pub trait ChatBackend {
    type Model: Clone + Default + Send + Sync;

    /// The address that a request for `model` is sent to.
    spec fn endpoint_spec(model: Self::Model) -> Seq<char>;

    /// The provider's own headers for the key `api_key`.
    spec fn headers_spec(api_key: Seq<char>) -> Seq<(Seq<char>, Seq<char>)>;

    /// The request body for `model`, the system instruction and the log.
    spec fn body_spec(
        model: Self::Model,
        system_instruction: Seq<char>,
        log: Seq<(Role, Seq<char>)>,
    ) -> Seq<char>;

    /// What reading a response gives, from its body and what decoding the
    /// body gave: the provider's candidate replies in order, or the
    /// decoder's message.
    spec fn reply_spec(
        body: Seq<char>,
        decoded: Result<Seq<Seq<char>>, Seq<char>>,
    ) -> Result<Seq<char>, Seq<char>>;

    fn endpoint(model: &Self::Model) -> (url: String)
        ensures
            url@ == Self::endpoint_spec(*model),
    ;

    fn headers(api_key: &str) -> (h: Vec<(&'static str, String)>)
        ensures
            headers_view(h@) == Self::headers_spec(api_key@),
    ;

    fn build_body(
        model: &Self::Model,
        system_instruction: &str,
        contents: &VecDeque<ChatMessage>,
    ) -> (body: String)
        ensures
            body@ == Self::body_spec(*model, system_instruction@, log_view(contents@)),
    ;

    fn parse_response(body: &str, decoded: Result<Vec<String>, String>) -> (r: Result<String, String>)
        ensures
            result_view(r) == Self::reply_spec(body@, decoded_view(decoded)),
    ;
}

/// The view of a decoded response.
pub open spec fn decoded_view(d: Result<Vec<String>, String>) -> Result<Seq<Seq<char>>, Seq<char>> {
    match d {
        Ok(v) => Ok(v@.map_values(|t: String| t@)),
        Err(e) => Err(e@),
    }
}

/// The headers of every request: the JSON content type first, then the
/// provider's own.
pub open spec fn request_headers_spec<B: ChatBackend>(api_key: Seq<char>) -> Seq<(Seq<char>, Seq<char>)> {
    seq![("Content-Type"@, "application/json"@)] + B::headers_spec(api_key)
}

/// The full header list of a request to backend `B`.
pub fn request_headers<B: ChatBackend>(api_key: &str) -> (h: Vec<(&'static str, String)>)
    ensures
        headers_view(h@) == request_headers_spec::<B>(api_key@),
{
    let mut h: Vec<(&'static str, String)> = Vec::new();
    h.push(("Content-Type", "application/json".to_owned()));
    let mut own = B::headers(api_key);
    h.append(&mut own);
    assert(headers_view(h@) =~= request_headers_spec::<B>(api_key@));
    h
}

/// Whether an HTTP status code reports success: it lies in `200..300`.
pub open spec fn is_success_status(code: u16) -> bool {
    200 <= code && code < 300
}

/// Asks `reqwest::StatusCode` (the `http` crate's type) whether a status
/// code reports success. `StatusCode::from_u16` accepts exactly the codes
/// `100..=999`, and `StatusCode::is_success` holds exactly for `200..300`;
/// a code that `from_u16` refuses lies outside that range.
#[verifier::external_body]
fn status_is_success(code: u16) -> (r: bool)
    ensures
        r == is_success_status(code),
{
    match reqwest::StatusCode::from_u16(code) {
        Ok(status) => status.is_success(),
        Err(_) => false,
    }
}

/// A reply is returned when the service reported success, and is an error
/// otherwise.
pub open spec fn outcome_spec(status: u16, reply: Seq<char>) -> Result<Seq<char>, Seq<char>> {
    if is_success_status(status) {
        Ok(reply)
    } else {
        Err(reply)
    }
}

/// The abstract view of a result of strings.
pub open spec fn result_view(r: Result<String, String>) -> Result<Seq<char>, Seq<char>> {
    match r {
        Ok(t) => Ok(t@),
        Err(e) => Err(e@),
    }
}

/// What a request ends in, given the HTTP status of the response and the
/// reply read from it.
pub fn reply_outcome(status: u16, reply: String) -> (r: Result<String, String>)
    ensures
        result_view(r) == outcome_spec(status, reply@),
{
    if status_is_success(status) {
        Ok(reply)
    } else {
        Err(reply)
    }
}

/// The view of a log is taken element by element.
proof fn lemma_log_view_push(s: Seq<ChatMessage>, m: ChatMessage)
    ensures
        log_view(s.push(m)) == log_view(s).push(m@),
{
    assert(log_view(s.push(m)) =~= log_view(s).push(m@));
}

/// Keeping the last elements commutes with taking the view.
proof fn lemma_log_view_keep_last(s: Seq<ChatMessage>, n: nat)
    ensures
        log_view(keep_last(s, n)) == keep_last(log_view(s), n),
{
    assert(log_view(keep_last(s, n)) =~= keep_last(log_view(s), n));
}

/// The log after adding `entries` one at a time, each addition keeping the
/// last `n` messages.
pub open spec fn log_after_each<T>(log: Seq<T>, entries: Seq<T>, n: nat) -> Seq<T>
    decreases entries.len(),
{
    if entries.len() == 0 {
        log
    } else {
        keep_last(log_after_each(log, entries.drop_last(), n).push(entries.last()), n)
    }
}

/// Trimming before one more addition trims to the same messages as
/// trimming once after it.
proof fn lemma_keep_last_push<T>(s: Seq<T>, x: T, n: nat)
    ensures
        keep_last(keep_last(s, n).push(x), n) == keep_last(s.push(x), n),
{
    assert(keep_last(keep_last(s, n).push(x), n) =~= keep_last(s.push(x), n));
}

/// Adding a batch at once leaves the same log as adding its messages one
/// at a time: `add_log_bulk` agrees with repeated `add_user_log` and
/// `add_model_log` calls on the same entries.
pub proof fn law_bulk_is_one_by_one<T>(log: Seq<T>, entries: Seq<T>, n: nat)
    requires
        log.len() <= n,
    ensures
        log_after_each(log, entries, n) == keep_last(log + entries, n),
    decreases entries.len(),
{
    if entries.len() == 0 {
        assert(log + entries =~= log);
    } else {
        law_bulk_is_one_by_one(log, entries.drop_last(), n);
        lemma_keep_last_push(log + entries.drop_last(), entries.last(), n);
        assert((log + entries.drop_last()).push(entries.last()) =~= log + entries);
    }
}

/// A message just added is the newest one in the log, the log never holds
/// more than `n` messages, and what it holds is the newest part of what it
/// held with the new message.
pub proof fn law_added_message_is_newest<T>(log: Seq<T>, entry: T, n: nat)
    requires
        n > 0,
    ensures
        keep_last(log.push(entry), n).last() == entry,
        keep_last(log.push(entry), n).len() <= n,
        keep_last(log.push(entry), n) == log.push(entry).subrange(
            log.push(entry).len() - keep_last(log.push(entry), n).len(),
            log.push(entry).len() as int,
        ),
{
    let full = log.push(entry);
    if full.len() <= n {
        assert(full.subrange(0, full.len() as int) =~= full);
    }
}

/// A chat client: the model in use, the key, the system instruction and a
/// log of at most `MAX_LOG` messages.
pub struct ChatAI<B: ChatBackend> {
    model: B::Model,
    api_key: String,
    system_instruction: String,
    contents: VecDeque<ChatMessage>,
}

impl<B: ChatBackend> ChatAI<B> {
    #[verifier::type_invariant]
    spec fn log_bounded(self) -> bool {
        self.contents@.len() <= MAX_LOG
    }

    /// The conversation log, oldest message first.
    pub closed spec fn log(&self) -> Seq<(Role, Seq<char>)> {
        log_view(self.contents@)
    }

    /// The model that requests use unless told otherwise.
    pub closed spec fn current_model(&self) -> B::Model {
        self.model
    }

    /// The system instruction sent before the log.
    pub closed spec fn instruction(&self) -> Seq<char> {
        self.system_instruction@
    }

    /// The key that requests are made with.
    pub closed spec fn key(&self) -> Seq<char> {
        self.api_key@
    }

    /// A client with an empty log, no system instruction and the backend's
    /// default model.
    pub fn new(api_key: &str) -> (r: Self)
        ensures
            r.log() == Seq::<(Role, Seq<char>)>::empty(),
            r.key() == api_key@,
            r.instruction() == Seq::<char>::empty(),
            call_ensures(<B::Model as Default>::default, (), r.current_model()),
    {
        let r = ChatAI {
            model: B::Model::default(),
            api_key: api_key.to_owned(),
            system_instruction: String::new(),
            contents: VecDeque::new(),
        };
        assert(r.log() =~= Seq::<(Role, Seq<char>)>::empty());
        r
    }

    /// A client with the companion persona as its system instruction.
    pub fn manami(api_key: &str) -> (r: Self)
        ensures
            r.log() == Seq::<(Role, Seq<char>)>::empty(),
            r.key() == api_key@,
            r.instruction() == MANAMI_PROMPT@,
            call_ensures(<B::Model as Default>::default, (), r.current_model()),
    {
        let r = ChatAI {
            model: B::Model::default(),
            api_key: api_key.to_owned(),
            system_instruction: MANAMI_PROMPT.to_owned(),
            contents: VecDeque::new(),
        };
        assert(r.log() =~= Seq::<(Role, Seq<char>)>::empty());
        r
    }

    /// The key that requests are made with.
    pub fn api_key(&self) -> (r: &str)
        ensures
            r@ == self.key(),
    {
        self.api_key.as_str()
    }

    /// Replaces the system instruction.
    pub fn set_system_instruction(&mut self, instruction: &str)
        ensures
            final(self).instruction() == instruction@,
            final(self).log() == old(self).log(),
            final(self).log().len() <= MAX_LOG,
            final(self).current_model() == old(self).current_model(),
            final(self).key() == old(self).key(),
    {
        proof {
            use_type_invariant(&*self);
        }
        self.system_instruction = instruction.to_owned();
    }

    /// Appends one message, dropping the oldest when the log would exceed
    /// `MAX_LOG`.
    fn push_entry(&mut self, entry: ChatMessage)
        ensures
            final(self).contents@ == keep_last(old(self).contents@.push(entry), MAX_LOG as nat),
            final(self).model == old(self).model,
            final(self).api_key == old(self).api_key,
            final(self).system_instruction == old(self).system_instruction,
    {
        proof {
            use_type_invariant(&*self);
        }
        let mut contents: VecDeque<ChatMessage> = VecDeque::new();
        std::mem::swap(&mut contents, &mut self.contents);
        let ghost before = contents@;
        contents.push_back(entry);
        if contents.len() > MAX_LOG {
            contents.pop_front();
        }
        assert(contents@ =~= keep_last(before.push(entry), MAX_LOG as nat));
        self.contents = contents;
    }

    /// Logs a user's message.
    pub fn add_user_log(&mut self, user: &str, message: &str)
        ensures
            final(self).log() == keep_last(
                old(self).log().push((Role::User, user_line(user@, message@))),
                MAX_LOG as nat,
            ),
            final(self).log().len() <= MAX_LOG,
            final(self).current_model() == old(self).current_model(),
            final(self).key() == old(self).key(),
            final(self).instruction() == old(self).instruction(),
    {
        let entry = ChatMessage::user(user, message);
        let ghost old_contents = self.contents@;
        self.push_entry(entry);
        proof {
            lemma_log_view_push(old_contents, entry);
            lemma_log_view_keep_last(old_contents.push(entry), MAX_LOG as nat);
        }
    }

    /// Logs a message of the model.
    pub fn add_model_log(&mut self, message: &str)
        ensures
            final(self).log() == keep_last(
                old(self).log().push((Role::Model, message@)),
                MAX_LOG as nat,
            ),
            final(self).log().len() <= MAX_LOG,
            final(self).current_model() == old(self).current_model(),
            final(self).key() == old(self).key(),
            final(self).instruction() == old(self).instruction(),
    {
        let entry = ChatMessage::model(message);
        let ghost old_contents = self.contents@;
        self.push_entry(entry);
        proof {
            lemma_log_view_push(old_contents, entry);
            lemma_log_view_keep_last(old_contents.push(entry), MAX_LOG as nat);
        }
    }
    /// Logs a batch of `(user name, message)` pairs in order, then keeps the
    /// last `MAX_LOG` messages.
    pub fn add_log_bulk(&mut self, messages: Vec<(String, &str)>)
        ensures
            final(self).log() == keep_last(old(self).log() + bulk_entries(messages@), MAX_LOG as nat),
            final(self).log().len() <= MAX_LOG,
            final(self).current_model() == old(self).current_model(),
            final(self).key() == old(self).key(),
            final(self).instruction() == old(self).instruction(),
    {
        proof {
            use_type_invariant(&*self);
        }
        let mut contents: VecDeque<ChatMessage> = VecDeque::new();
        std::mem::swap(&mut contents, &mut self.contents);
        let ghost before = log_view(contents@);
        let n = messages.len();
        let mut i: usize = 0;
        while i < n
            invariant
                n == messages@.len(),
                i <= n,
                log_view(contents@) == before + bulk_entries(messages@.take(i as int)),
            decreases n - i,
        {
            let user: &String = &messages[i].0;
            let message: &str = messages[i].1;
            let entry = if str_eq(user.as_str(), "model") {
                ChatMessage::model(message)
            } else {
                ChatMessage::user(user.as_str(), message)
            };
            let ghost prev = contents@;
            contents.push_back(entry);
            proof {
                lemma_log_view_push(prev, entry);
                assert(bulk_entries(messages@.take(i + 1)) =~= bulk_entries(messages@.take(i as int)).push(
                    entry@,
                ));
            }
            i = i + 1;
        }
        assert(messages@.take(n as int) =~= messages@);
        let ghost full = contents@;
        let length = contents.len();
        if length > MAX_LOG {
            let excess = length - MAX_LOG;
            let mut k: usize = 0;
            while k < excess
                invariant
                    excess == full.len() - MAX_LOG,
                    k <= excess,
                    contents@ == full.subrange(k as int, full.len() as int),
                decreases excess - k,
            {
                contents.pop_front();
                k = k + 1;
            }
        }
        assert(contents@ =~= keep_last(full, MAX_LOG as nat));
        proof {
            lemma_log_view_keep_last(full, MAX_LOG as nat);
        }
        self.contents = contents;
    }

    /// Empties the log.
    pub fn clear(&mut self)
        ensures
            final(self).log() == Seq::<(Role, Seq<char>)>::empty(),
            final(self).current_model() == old(self).current_model(),
            final(self).key() == old(self).key(),
            final(self).instruction() == old(self).instruction(),
    {
        self.contents = VecDeque::new();
        assert(self.log() =~= Seq::<(Role, Seq<char>)>::empty());
    }

    /// The request body that the current model, the system instruction and
    /// the log make.
    pub fn debug(&self) -> (body: String)
        ensures
            body@ == B::body_spec(self.current_model(), self.instruction(), self.log()),
    {
        B::build_body(&self.model, self.system_instruction.as_str(), &self.contents)
    }

    /// The request body for a generation with `model`.
    pub fn request_body(&self, model: &B::Model) -> (body: String)
        ensures
            body@ == B::body_spec(*model, self.instruction(), self.log()),
    {
        B::build_body(model, self.system_instruction.as_str(), &self.contents)
    }

    /// Settles a generation from the HTTP status of the response and the
    /// reply read from it: a successful reply is logged as the model's
    /// message and returned; a failed one is returned as the error and
    /// leaves the client as it was.
    pub fn complete_generation(&mut self, status: u16, reply: String) -> (r: Result<String, String>)
        ensures
            result_view(r) == outcome_spec(status, reply@),
            is_success_status(status) ==> final(self).log() == keep_last(
                old(self).log().push((Role::Model, reply@)),
                MAX_LOG as nat,
            ),
            !is_success_status(status) ==> final(self).log() == old(self).log(),
            final(self).log().len() <= MAX_LOG,
            final(self).current_model() == old(self).current_model(),
            final(self).key() == old(self).key(),
            final(self).instruction() == old(self).instruction(),
    {
        proof {
            use_type_invariant(&*self);
        }
        if status_is_success(status) {
            self.add_model_log(reply.as_str());
        }
        reply_outcome(status, reply)
    }

    /// The model and request body of a summary of `messages`: the backend's
    /// default model with the summarising instruction.
    pub fn summary_request(messages: Vec<ChatMessage>) -> (r: (B::Model, String))
        ensures
            call_ensures(<B::Model as Default>::default, (), r.0),
            r.1@ == B::body_spec(r.0, MATOME_PROMPT@, log_view(messages@)),
    {
        let model = B::Model::default();
        let mut contents: VecDeque<ChatMessage> = VecDeque::new();
        let ghost all = messages@;
        for m in it: messages
            invariant
                it.seq() == all,
                contents@ == it.seq().take(it.index() as int),
        {
            contents.push_back(m);
        }
        assert(contents@ =~= all);
        let body = B::build_body(&model, MATOME_PROMPT, &contents);
        (model, body)
    }

    /// Makes `model` the one that requests use.
    pub fn set_model(&mut self, model: B::Model)
        ensures
            final(self).current_model() == model,
            final(self).log() == old(self).log(),
            final(self).log().len() <= MAX_LOG,
            final(self).key() == old(self).key(),
            final(self).instruction() == old(self).instruction(),
    {
        proof {
            use_type_invariant(&*self);
        }
        self.model = model;
    }

    /// A clone of the model in use.
    pub fn get_model(&self) -> (r: B::Model)
        ensures
            cloned(self.current_model(), r),
    {
        self.model.clone()
    }
}

} // verus!
