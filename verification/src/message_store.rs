//! The message store's request handling: which statement a request runs
//! and what it is answered.
use vstd::prelude::*;

use crate::text::{parse_usize, parse_usize_spec, str_eq};

verus! {

/// The statement that stores one message, replacing the content of one
/// already stored under the same id.
pub const INSERT_MESSAGE_SQL: &'static str = "INSERT INTO message (message_id, channel_id, user_id, timestamp, content)
                 VALUES (?, ?, ?, ?, ?)
ON CONFLICT (message_id) DO UPDATE SET content = excluded.content;
";

/// The statement that replaces a message's content.
pub const UPDATE_MESSAGE_SQL: &'static str = "UPDATE message SET content = ? WHERE message_id = ?";

/// The statement that deletes a message.
pub const DELETE_MESSAGE_SQL: &'static str = "DELETE FROM message WHERE message_id = ?1";

/// The listing statement up to its sort order.
pub const SELECT_MESSAGES_SQL_HEAD: &'static str = "SELECT message.*, user.username FROM message
             LEFT JOIN user ON message.user_id = user.user_id
             WHERE channel_id = ?1
             AND (?6 = 1 OR ?2 IS NULL OR timestamp >= ?2)
             AND (?6 = 1 OR ?3 IS NULL OR timestamp <= ?3)
             AND (
                 ?6 = 1
                 OR ?4 IS NULL
                 OR timestamp > ?4
                 OR (timestamp = ?4 AND ?5 IS NOT NULL AND message_id > ?5)
             )
             AND (?6 = 0 OR summary_pending = 1)
             ORDER BY timestamp ";

/// An answer of the store: an HTTP status and a text body.
#[derive(Clone, Debug)]
pub struct StoreReply {
    pub status: u16,
    pub body: String,
}

impl View for StoreReply {
    type V = (u16, Seq<char>);

    open spec fn view(&self) -> (u16, Seq<char>) {
        (self.status, self.body@)
    }
}

/// A value bound to a placeholder of a statement.
#[derive(Clone, Debug)]
pub enum BindValue {
    Text(String),
    Bool(bool),
    Count(usize),
    Null,
}

/// The abstract view of a bound value.
pub enum BindView {
    Text(Seq<char>),
    Bool(bool),
    Count(usize),
    Null,
}

impl View for BindValue {
    type V = BindView;

    open spec fn view(&self) -> BindView {
        match self {
            BindValue::Text(s) => BindView::Text(s@),
            BindValue::Bool(b) => BindView::Bool(*b),
            BindValue::Count(n) => BindView::Count(*n),
            BindValue::Null => BindView::Null,
        }
    }
}

/// The view of a list of bound values.
pub open spec fn binds_view(p: Seq<BindValue>) -> Seq<BindView> {
    p.map_values(|b: BindValue| b@)
}

/// The view of the parameter lists of a batch, one list per execution.
pub open spec fn batch_view(ps: Seq<Vec<BindValue>>) -> Seq<Seq<BindView>> {
    ps.map_values(|p: Vec<BindValue>| binds_view(p@))
}

/// One message to store, as a request body carries it.
#[derive(Clone, Debug)]
pub struct MessageRecord {
    pub message_id: String,
    pub channel_id: String,
    pub user_id: String,
    pub timestamp: String,
    pub content: String,
}

/// A new content for a stored message.
#[derive(Clone, Debug)]
pub struct UpdateRecord {
    pub message_id: String,
    pub content: String,
}

/// The message to delete.
#[derive(Clone, Debug)]
pub struct DeleteRecord {
    pub message_id: String,
}

/// The values bound to `INSERT_MESSAGE_SQL` for one record, in the order of
/// its placeholders.
pub open spec fn insert_params(m: MessageRecord) -> Seq<BindView> {
    seq![
        BindView::Text(m.message_id@),
        BindView::Text(m.channel_id@),
        BindView::Text(m.user_id@),
        BindView::Text(m.timestamp@),
        BindView::Text(m.content@),
    ]
}

/// The values bound to `UPDATE_MESSAGE_SQL`, in the order of its placeholders.
pub open spec fn update_params(u: UpdateRecord) -> Seq<BindView> {
    seq![BindView::Text(u.content@), BindView::Text(u.message_id@)]
}

/// The values bound to `DELETE_MESSAGE_SQL`.
pub open spec fn delete_params(d: DeleteRecord) -> Seq<BindView> {
    seq![BindView::Text(d.message_id@)]
}

/// What a request leads to: an answer at once, or a statement to run once
/// per parameter list, in one batch, and the answer once it has run.
#[derive(Clone, Debug)]
pub enum StoreStep {
    Answer(StoreReply),
    Run { sql: &'static str, params: Vec<Vec<BindValue>>, then: StoreReply },
}

/// The view of a step: the answer, or the statement, its parameter lists
/// and the later answer.
pub open spec fn step_view(s: StoreStep) -> Result<
    (u16, Seq<char>),
    (Seq<char>, Seq<Seq<BindView>>, (u16, Seq<char>)),
> {
    match s {
        StoreStep::Answer(r) => Ok(r@),
        StoreStep::Run { sql, params, then } => Err((sql@, batch_view(params@), then@)),
    }
}

fn reply(status: u16, body: &str) -> (r: StoreReply)
    ensures
        r@ == (status, body@),
{
    StoreReply { status, body: body.to_owned() }
}

fn text(s: &String) -> (r: BindValue)
    ensures
        r@ == BindView::Text(s@),
{
    BindValue::Text(s.clone())
}

/// The answer to a body that does not decode.
pub open spec fn undecodable_view() -> (u16, Seq<char>) {
    (400u16, "Failed to parse request body"@)
}

/// Handles a request to store messages, given the records its body
/// decoded to (`None` when it did not decode): each record is stored, or
/// its content replaced when its id is already stored.
pub fn insert_messages(decoded: Option<Vec<MessageRecord>>) -> (r: StoreStep)
    ensures
        step_view(r) == match decoded {
            None => Ok(undecodable_view()),
            Some(ms) => if ms.len() == 0 {
                Ok((200u16, "No messages to insert"@))
            } else {
                Err(
                    (
                        INSERT_MESSAGE_SQL@,
                        ms@.map_values(|m: MessageRecord| insert_params(m)),
                        (200u16, "Messages inserted successfully"@),
                    ),
                )
            },
        },
{
    match decoded {
        None => StoreStep::Answer(reply(400, "Failed to parse request body")),
        Some(ms) => {
            if ms.len() == 0 {
                StoreStep::Answer(reply(200, "No messages to insert"))
            } else {
                let n = ms.len();
                let mut params: Vec<Vec<BindValue>> = Vec::new();
                let mut i: usize = 0;
                while i < n
                    invariant
                        n == ms@.len(),
                        i <= n,
                        batch_view(params@) == ms@.take(i as int).map_values(
                            |m: MessageRecord| insert_params(m),
                        ),
                    decreases n - i,
                {
                    let m: &MessageRecord = &ms[i];
                    let mut p: Vec<BindValue> = Vec::new();
                    p.push(text(&m.message_id));
                    p.push(text(&m.channel_id));
                    p.push(text(&m.user_id));
                    p.push(text(&m.timestamp));
                    p.push(text(&m.content));
                    assert(binds_view(p@) =~= insert_params(*m));
                    let ghost prev = params@;
                    params.push(p);
                    assert(params@ == prev.push(p));
                    assert(batch_view(params@) =~= batch_view(prev).push(binds_view(p@)));
                    assert(ms@.take(i + 1) =~= ms@.take(i as int).push(ms@[i as int]));
                    assert(batch_view(params@) =~= ms@.take(i + 1).map_values(
                        |m: MessageRecord| insert_params(m),
                    ));
                    i = i + 1;
                }
                assert(ms@.take(n as int) =~= ms@);
                StoreStep::Run {
                    sql: INSERT_MESSAGE_SQL,
                    params,
                    then: reply(200, "Messages inserted successfully"),
                }
            }
        },
    }
}

/// Handles a request to replace a message's content, given the record its
/// body decoded to.
pub fn update_message(decoded: Option<UpdateRecord>) -> (r: StoreStep)
    ensures
        step_view(r) == match decoded {
            Some(u) => Err(
                (
                    UPDATE_MESSAGE_SQL@,
                    seq![update_params(u)],
                    (200u16, "Message updated successfully"@),
                ),
            ),
            None => Ok(undecodable_view()),
        },
{
    match decoded {
        Some(u) => {
            let mut p: Vec<BindValue> = Vec::new();
            p.push(text(&u.content));
            p.push(text(&u.message_id));
            assert(binds_view(p@) =~= seq![BindView::Text(u.content@), BindView::Text(u.message_id@)]);
            let mut params: Vec<Vec<BindValue>> = Vec::new();
            params.push(p);
            assert(batch_view(params@) =~= seq![binds_view(p@)]);
            let r = StoreStep::Run {
                sql: UPDATE_MESSAGE_SQL,
                params,
                then: reply(200, "Message updated successfully"),
            };
            assert(batch_view(params@) =~= seq![
                seq![BindView::Text(u.content@), BindView::Text(u.message_id@)],
            ]);
            r
        },
        None => StoreStep::Answer(reply(400, "Failed to parse request body")),
    }
}

/// Handles a request to delete a message, given the record its body
/// decoded to.
pub fn delete_message(decoded: Option<DeleteRecord>) -> (r: StoreStep)
    ensures
        step_view(r) == match decoded {
            Some(d) => Err(
                (
                    DELETE_MESSAGE_SQL@,
                    seq![delete_params(d)],
                    (200u16, "Message deleted successfully"@),
                ),
            ),
            None => Ok(undecodable_view()),
        },
{
    match decoded {
        Some(d) => {
            let mut p: Vec<BindValue> = Vec::new();
            p.push(text(&d.message_id));
            assert(binds_view(p@) =~= seq![BindView::Text(d.message_id@)]);
            let mut params: Vec<Vec<BindValue>> = Vec::new();
            params.push(p);
            assert(batch_view(params@) =~= seq![binds_view(p@)]);
            let r = StoreStep::Run {
                sql: DELETE_MESSAGE_SQL,
                params,
                then: reply(200, "Message deleted successfully"),
            };
            assert(batch_view(params@) =~= seq![seq![BindView::Text(d.message_id@)]]);
            r
        },
        None => StoreStep::Answer(reply(400, "Failed to parse request body")),
    }
}

/// A listing of a channel's messages, read from the query parameters.
#[derive(Clone, Debug)]
pub struct MessageQuery {
    pub channel_id: String,
    pub limit: usize,
    /// Newest first when set, oldest first otherwise.
    pub descending: bool,
    /// Only messages that still wait to be summarised, ignoring the range.
    pub summary_pending_only: bool,
    pub from: Option<String>,
    pub to: Option<String>,
    pub after: Option<String>,
    pub after_message_id: Option<String>,
}

/// The view of an optional string parameter.
pub open spec fn param_view(p: Option<String>) -> Option<Seq<char>> {
    match p {
        Some(s) => Some(s@),
        None => None,
    }
}

/// What the listing parameters give: an error answer when `channel_id` is
/// missing or `limit` is missing or not a `usize`; otherwise the channel,
/// the limit, descending order exactly when `order` is `Desc`, the pending
/// filter exactly when `summary_pending_only` is `true`, and the range and
/// cursor parameters as given.
pub open spec fn query_view(
    channel_id: Option<Seq<char>>,
    limit: Option<Seq<char>>,
    order: Option<Seq<char>>,
    summary_pending_only: Option<Seq<char>>,
) -> Result<(Seq<char>, usize, bool, bool), (u16, Seq<char>)> {
    match channel_id {
        None => Err((400u16, "Missing query parameter: channel_id"@)),
        Some(c) => match limit {
            Some(l) if parse_usize_spec(l) is Some => Ok(
                (
                    c,
                    parse_usize_spec(l)->0,
                    order == Some("Desc"@),
                    summary_pending_only == Some("true"@),
                ),
            ),
            _ => Err((400u16, "Missing or invalid query parameter: limit"@)),
        },
    }
}

fn param_is(p: &Option<String>, value: &str) -> (r: bool)
    ensures
        r == (param_view(*p) == Some(value@)),
{
    match p {
        Some(s) => str_eq(s.as_str(), value),
        None => false,
    }
}

/// Reads a listing from the query parameters.
pub fn get_messages(
    channel_id: Option<String>,
    limit: Option<String>,
    order: Option<String>,
    summary_pending_only: Option<String>,
    from: Option<String>,
    to: Option<String>,
    after: Option<String>,
    after_message_id: Option<String>,
) -> (r: Result<MessageQuery, StoreReply>)
    ensures
        match r {
            Ok(q) => {
                &&& query_view(
                    param_view(channel_id),
                    param_view(limit),
                    param_view(order),
                    param_view(summary_pending_only),
                ) == Ok::<(Seq<char>, usize, bool, bool), (u16, Seq<char>)>(
                    (q.channel_id@, q.limit, q.descending, q.summary_pending_only),
                )
                &&& param_view(q.from) == param_view(from)
                &&& param_view(q.to) == param_view(to)
                &&& param_view(q.after) == param_view(after)
                &&& param_view(q.after_message_id) == param_view(after_message_id)
            },
            Err(e) => query_view(
                param_view(channel_id),
                param_view(limit),
                param_view(order),
                param_view(summary_pending_only),
            ) == Err::<(Seq<char>, usize, bool, bool), (u16, Seq<char>)>(e@),
        },
{
    let channel_id = match channel_id {
        Some(c) => c,
        None => {
            return Err(reply(400, "Missing query parameter: channel_id"));
        },
    };
    let limit = match &limit {
        Some(l) => parse_usize(l.as_str()),
        None => None,
    };
    let limit = match limit {
        Some(n) => n,
        None => {
            return Err(reply(400, "Missing or invalid query parameter: limit"));
        },
    };
    let descending = param_is(&order, "Desc");
    let pending = param_is(&summary_pending_only, "true");
    Ok(
        MessageQuery {
            channel_id,
            limit,
            descending,
            summary_pending_only: pending,
            from,
            to,
            after,
            after_message_id,
        },
    )
}

/// The sort keyword of a listing.
pub open spec fn order_keyword(descending: bool) -> Seq<char> {
    if descending {
        "DESC"@
    } else {
        "ASC"@
    }
}

/// The listing statement for a sort order.
pub open spec fn select_sql(descending: bool) -> Seq<char> {
    SELECT_MESSAGES_SQL_HEAD@ + order_keyword(descending) + ", message_id "@ + order_keyword(
        descending,
    ) + " LIMIT ?7"@
}

/// The view of an optional parameter as a bound value: its text, or null.
pub open spec fn optional_bind(p: Option<String>) -> BindView {
    match p {
        Some(s) => BindView::Text(s@),
        None => BindView::Null,
    }
}

fn optional_text(p: &Option<String>) -> (r: BindValue)
    ensures
        r@ == optional_bind(*p),
{
    match p {
        Some(s) => text(s),
        None => BindValue::Null,
    }
}

/// The values bound to the listing statement's placeholders `?1` to `?7`:
/// the channel, `from`, `to`, `after`, `after_message_id`, the pending
/// filter and the limit.
pub open spec fn query_params(q: MessageQuery) -> Seq<BindView> {
    seq![
        BindView::Text(q.channel_id@),
        optional_bind(q.from),
        optional_bind(q.to),
        optional_bind(q.after),
        optional_bind(q.after_message_id),
        BindView::Bool(q.summary_pending_only),
        BindView::Count(q.limit),
    ]
}

impl MessageQuery {
    /// The values bound to the listing statement, `?1` to `?7` in order.
    pub fn params(&self) -> (r: Vec<BindValue>)
        ensures
            binds_view(r@) == query_params(*self),
    {
        let mut p: Vec<BindValue> = Vec::new();
        p.push(text(&self.channel_id));
        p.push(optional_text(&self.from));
        p.push(optional_text(&self.to));
        p.push(optional_text(&self.after));
        p.push(optional_text(&self.after_message_id));
        p.push(BindValue::Bool(self.summary_pending_only));
        p.push(BindValue::Count(self.limit));
        assert(binds_view(p@) =~= query_params(*self));
        p
    }

    /// The statement that lists the messages; `params` gives the values of
    /// its placeholders.
    pub fn sql(&self) -> (r: String)
        ensures
            r@ == select_sql(self.descending),
    {
        let keyword = if self.descending {
            "DESC"
        } else {
            "ASC"
        };
        let mut s = SELECT_MESSAGES_SQL_HEAD.to_owned();
        s.append(keyword);
        s.append(", message_id ");
        s.append(keyword);
        s.append(" LIMIT ?7");
        s
    }
}

/// What a listing request asks for: it is refused exactly when the channel
/// is missing or the limit is missing or not a number; otherwise the listing
/// is of that channel with that limit, newest first exactly when `order` is
/// `Desc` (whatever `summary_pending_only` says), and restricted to messages
/// waiting for a summary exactly when `summary_pending_only` is `true`
/// (whatever `order` says).
pub proof fn law_listing_parameters(
    channel_id: Option<Seq<char>>,
    limit: Option<Seq<char>>,
    order: Option<Seq<char>>,
    summary_pending_only: Option<Seq<char>>,
)
    ensures
        channel_id is None ==> query_view(channel_id, limit, order, summary_pending_only) is Err,
        channel_id is Some && (limit is None || parse_usize_spec(limit->0) is None) ==> query_view(
            channel_id,
            limit,
            order,
            summary_pending_only,
        ) is Err,
        channel_id is Some && limit is Some && parse_usize_spec(limit->0) is Some ==> ({
            let q = query_view(channel_id, limit, order, summary_pending_only);
            let (c, n, descending, pending) = q->Ok_0;
            &&& q is Ok
            &&& c == channel_id->0
            &&& n == parse_usize_spec(limit->0)->0
            &&& descending == (order == Some("Desc"@))
            &&& pending == (summary_pending_only == Some("true"@))
        }),
{
}

/// Whether `needle` occurs in `hay`.
pub open spec fn occurs_in(hay: Seq<char>, needle: Seq<char>) -> bool {
    exists|i: int| 0 <= i <= hay.len() && needle.is_prefix_of(#[trigger] hay.skip(i))
}

/// The listing statement and its parameters agree: `?1` is compared with
/// the channel and bound to it; `?2` is the lower and `?3` the upper
/// timestamp bound, bound to `from` and `to`; `?4` and `?5` are the cursor's
/// timestamp and message id, bound to `after` and `after_message_id`; `?6`
/// switches to the pending messages and is bound to that flag; `?7` is the
/// limit and is bound to it.
pub proof fn law_listing_placeholders(q: MessageQuery)
    ensures
        query_params(q).len() == 7,
        occurs_in(select_sql(q.descending), "channel_id = ?1"@)
            && query_params(q)[0] == BindView::Text(q.channel_id@),
        occurs_in(select_sql(q.descending), "timestamp >= ?2"@) && query_params(q)[1]
            == optional_bind(q.from),
        occurs_in(select_sql(q.descending), "timestamp <= ?3"@) && query_params(q)[2]
            == optional_bind(q.to),
        occurs_in(select_sql(q.descending), "timestamp > ?4"@) && query_params(q)[3]
            == optional_bind(q.after),
        occurs_in(select_sql(q.descending), "message_id > ?5"@) && query_params(q)[4]
            == optional_bind(q.after_message_id),
        occurs_in(select_sql(q.descending), "summary_pending = 1"@) && query_params(q)[5]
            == BindView::Bool(q.summary_pending_only),
        occurs_in(select_sql(q.descending), "LIMIT ?7"@) && query_params(q)[6] == BindView::Count(
            q.limit,
        ),
{
    let sql = select_sql(q.descending);
    let head = SELECT_MESSAGES_SQL_HEAD@;
    reveal_strlit("SELECT message.*, user.username FROM message
             LEFT JOIN user ON message.user_id = user.user_id
             WHERE channel_id = ?1
             AND (?6 = 1 OR ?2 IS NULL OR timestamp >= ?2)
             AND (?6 = 1 OR ?3 IS NULL OR timestamp <= ?3)
             AND (
                 ?6 = 1
                 OR ?4 IS NULL
                 OR timestamp > ?4
                 OR (timestamp = ?4 AND ?5 IS NOT NULL AND message_id > ?5)
             )
             AND (?6 = 0 OR summary_pending = 1)
             ORDER BY timestamp ");
    reveal_strlit("channel_id = ?1");
    reveal_strlit("timestamp >= ?2");
    reveal_strlit("timestamp <= ?3");
    reveal_strlit("timestamp > ?4");
    reveal_strlit("message_id > ?5");
    reveal_strlit("summary_pending = 1");
    reveal_strlit("LIMIT ?7");
    reveal_strlit(" LIMIT ?7");
    let k = order_keyword(q.descending);
    assert(sql =~= head + (k + (", message_id "@ + (k + " LIMIT ?7"@))));
    assert(sql.subrange(126, 141) =~= "channel_id = ?1"@);
    assert("channel_id = ?1"@.is_prefix_of(sql.skip(126)));
    assert(sql.subrange(184, 199) =~= "timestamp >= ?2"@);
    assert("timestamp >= ?2"@.is_prefix_of(sql.skip(184)));
    assert(sql.subrange(243, 258) =~= "timestamp <= ?3"@);
    assert("timestamp <= ?3"@.is_prefix_of(sql.skip(243)));
    assert(sql.subrange(354, 368) =~= "timestamp > ?4"@);
    assert("timestamp > ?4"@.is_prefix_of(sql.skip(354)));
    assert(sql.subrange(428, 443) =~= "message_id > ?5"@);
    assert("message_id > ?5"@.is_prefix_of(sql.skip(428)));
    assert(sql.subrange(488, 507) =~= "summary_pending = 1"@);
    assert("summary_pending = 1"@.is_prefix_of(sql.skip(488)));
    assert(sql.subrange(sql.len() - 8, sql.len() as int) =~= "LIMIT ?7"@);
    assert("LIMIT ?7"@.is_prefix_of(sql.skip(sql.len() - 8)));

}

/// The statements and their parameters agree: an insert binds, in turn,
/// the id, channel, user, timestamp and content to the columns that the
/// statement lists in that order; an update binds the new content to the
/// content it sets and the id to the row it picks; a delete binds the id
/// of the row it removes.
pub proof fn law_store_statement_placeholders(m: MessageRecord, u: UpdateRecord, d: DeleteRecord)
    ensures
        occurs_in(INSERT_MESSAGE_SQL@, "INSERT INTO message (message_id, channel_id, user_id, timestamp, content)"@),
        occurs_in(INSERT_MESSAGE_SQL@, "VALUES (?, ?, ?, ?, ?)"@),
        insert_params(m).len() == 5,
        insert_params(m)[0] == BindView::Text(m.message_id@),
        insert_params(m)[1] == BindView::Text(m.channel_id@),
        insert_params(m)[2] == BindView::Text(m.user_id@),
        insert_params(m)[3] == BindView::Text(m.timestamp@),
        insert_params(m)[4] == BindView::Text(m.content@),
        occurs_in(UPDATE_MESSAGE_SQL@, "SET content = ? WHERE message_id = ?"@),
        update_params(u) == seq![BindView::Text(u.content@), BindView::Text(u.message_id@)],
        occurs_in(DELETE_MESSAGE_SQL@, "WHERE message_id = ?1"@),
        delete_params(d) == seq![BindView::Text(d.message_id@)],
{
    reveal_strlit("INSERT INTO message (message_id, channel_id, user_id, timestamp, content)\n                 VALUES (?, ?, ?, ?, ?)\nON CONFLICT (message_id) DO UPDATE SET content = excluded.content;\n");
    reveal_strlit("UPDATE message SET content = ? WHERE message_id = ?");
    reveal_strlit("DELETE FROM message WHERE message_id = ?1");
    reveal_strlit("INSERT INTO message (message_id, channel_id, user_id, timestamp, content)");
    reveal_strlit("VALUES (?, ?, ?, ?, ?)");
    reveal_strlit("SET content = ? WHERE message_id = ?");
    reveal_strlit("WHERE message_id = ?1");
    assert(INSERT_MESSAGE_SQL@.subrange(0, 73) =~= "INSERT INTO message (message_id, channel_id, user_id, timestamp, content)"@);
    assert("INSERT INTO message (message_id, channel_id, user_id, timestamp, content)"@.is_prefix_of(INSERT_MESSAGE_SQL@.skip(0)));
    assert(INSERT_MESSAGE_SQL@.subrange(91, 113) =~= "VALUES (?, ?, ?, ?, ?)"@);
    assert("VALUES (?, ?, ?, ?, ?)"@.is_prefix_of(INSERT_MESSAGE_SQL@.skip(91)));
    assert(UPDATE_MESSAGE_SQL@.subrange(15, 51) =~= "SET content = ? WHERE message_id = ?"@);
    assert("SET content = ? WHERE message_id = ?"@.is_prefix_of(UPDATE_MESSAGE_SQL@.skip(15)));
    assert(DELETE_MESSAGE_SQL@.subrange(20, 41) =~= "WHERE message_id = ?1"@);
    assert("WHERE message_id = ?1"@.is_prefix_of(DELETE_MESSAGE_SQL@.skip(20)));
}

/// The listing is sorted by timestamp, then by message id, newest first
/// exactly when `descending` is set.
pub proof fn law_listing_order(descending: bool)
    ensures
        descending ==> occurs_in(select_sql(descending), "ORDER BY timestamp DESC, message_id DESC LIMIT ?7"@),
        !descending ==> occurs_in(select_sql(descending), "ORDER BY timestamp ASC, message_id ASC LIMIT ?7"@),
{
    let sql = select_sql(descending);
    let head = SELECT_MESSAGES_SQL_HEAD@;
    reveal_strlit("SELECT message.*, user.username FROM message\n             LEFT JOIN user ON message.user_id = user.user_id\n             WHERE channel_id = ?1\n             AND (?6 = 1 OR ?2 IS NULL OR timestamp >= ?2)\n             AND (?6 = 1 OR ?3 IS NULL OR timestamp <= ?3)\n             AND (\n                 ?6 = 1\n                 OR ?4 IS NULL\n                 OR timestamp > ?4\n                 OR (timestamp = ?4 AND ?5 IS NOT NULL AND message_id > ?5)\n             )\n             AND (?6 = 0 OR summary_pending = 1)\n             ORDER BY timestamp ");
    reveal_strlit("ORDER BY timestamp DESC, message_id DESC LIMIT ?7");
    reveal_strlit("ORDER BY timestamp ASC, message_id ASC LIMIT ?7");
    reveal_strlit("DESC");
    reveal_strlit("ASC");
    reveal_strlit(", message_id ");
    reveal_strlit(" LIMIT ?7");
    let k = order_keyword(descending);
    assert(sql =~= head + (k + (", message_id "@ + (k + " LIMIT ?7"@))));
    if descending {
        assert(sql.subrange(522, sql.len() as int) =~= "ORDER BY timestamp DESC, message_id DESC LIMIT ?7"@);
        assert("ORDER BY timestamp DESC, message_id DESC LIMIT ?7"@.is_prefix_of(sql.skip(522)));
    } else {
        assert(sql.subrange(522, sql.len() as int) =~= "ORDER BY timestamp ASC, message_id ASC LIMIT ?7"@);
        assert("ORDER BY timestamp ASC, message_id ASC LIMIT ?7"@.is_prefix_of(sql.skip(522)));
    }
}

} // verus!
