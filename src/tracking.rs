use vstd::prelude::*;
use crate::chain::TrackingRecord;
use crate::model::{Message, ModelOptions, Usage};

verus! {

/// A value bound to one placeholder of a tracking statement.
#[derive(Clone, Debug)]
pub enum SqlParam {
    Integer(i64),
    Text(String),
    /// A real value, as the bit pattern of its single-precision form.
    Real32(u32),
    /// A real value, as the bit pattern of its double-precision form.
    Real64(u64),
    Null,
}

/// The opening of the statement that records a call's messages.
pub open spec fn message_insert_prefix() -> Seq<char> {
    "INSERT INTO completion_messages (completion_id, role, content) VALUES "@
}

/// The placeholder group of one message row.
pub open spec fn message_row_placeholder() -> Seq<char> {
    "(?, ?, ?)"@
}

/// `n` row placeholders, separated by a comma and a space.
pub open spec fn row_placeholders(n: nat) -> Seq<char>
    decreases n,
{
    if n == 0 {
        Seq::empty()
    } else if n == 1 {
        message_row_placeholder()
    } else {
        row_placeholders((n - 1) as nat) + ", "@ + message_row_placeholder()
    }
}

/// The statement that records a completion's call parameters and usage and
/// returns the new row's id.
pub open spec fn completion_insert_statement() -> Seq<char> {
    "INSERT INTO completions (formatted_prompt, model_name, max_tokens, temperature, repeat_penalty, repeat_penalty_last_n_tokens, top_k, top_p, prompt_token_count, generated_token_count, duration_ms, error) VALUES (?, ?, ?, ?, ?, ?, ?, ?, ?, ?, ?, ?) RETURNING id"@
}

/// The statement that records `count` messages of one completion.
pub fn message_insert_statement(count: usize) -> (r: String)
    ensures
        r@ == message_insert_prefix() + row_placeholders(count as nat),
{
    let mut stmt = String::from_str(
        "INSERT INTO completion_messages (completion_id, role, content) VALUES ",
    );
    let mut k: usize = 0;
    while k < count
        invariant
            k <= count,
            stmt@ == message_insert_prefix() + row_placeholders(k as nat),
        decreases count - k,
    {
        if k > 0 {
            stmt.append(", ");
        }
        stmt.append("(?, ?, ?)");
        proof {
            if k == 0 {
                assert(row_placeholders(0) =~= Seq::empty());
                assert(row_placeholders(1) == message_row_placeholder());
            }
        }
        assert(stmt@ =~= message_insert_prefix() + row_placeholders((k + 1) as nat));
        k = k + 1;
    }
    stmt
}

pub fn completion_insert_statement_text() -> (r: String)
    ensures
        r@ == completion_insert_statement(),
{
    String::from_str(
        "INSERT INTO completions (formatted_prompt, model_name, max_tokens, temperature, repeat_penalty, repeat_penalty_last_n_tokens, top_k, top_p, prompt_token_count, generated_token_count, duration_ms, error) VALUES (?, ?, ?, ?, ?, ?, ?, ?, ?, ?, ?, ?) RETURNING id",
    )
}

/// `p` is the text `t`.
pub open spec fn is_text(p: SqlParam, t: Seq<char>) -> bool {
    p matches SqlParam::Text(s) && s@ == t
}

/// The three values of message `m`'s row: the completion's id, the role's name, the text.
pub open spec fn message_row_matches(ps: Seq<SqlParam>, at: int, completion_id: i64, m: Message) -> bool {
    &&& ps[at] == SqlParam::Integer(completion_id)
    &&& is_text(ps[at + 1], m.role.name_of())
    &&& is_text(ps[at + 2], m.content@)
}

/// The values for the message statement: one row of three per message, in order.
pub fn message_params(completion_id: i64, messages: &[Message]) -> (r: Vec<SqlParam>)
    requires
        messages@.len() * 3 <= usize::MAX,
    ensures
        r@.len() == messages@.len() * 3,
        forall|i: int|
            0 <= i < messages@.len() ==> #[trigger] message_row_matches(
                r@,
                3 * i,
                completion_id,
                messages@[i],
            ),
{
    let mut params: Vec<SqlParam> = Vec::new();
    let mut k: usize = 0;
    while k < messages.len()
        invariant
            k <= messages@.len(),
            messages@.len() * 3 <= usize::MAX,
            params@.len() == k * 3,
            forall|i: int|
                0 <= i < k ==> #[trigger] message_row_matches(
                    params@,
                    3 * i,
                    completion_id,
                    messages@[i],
                ),
        decreases messages@.len() - k,
    {
        let ghost before = params@;
        let m = &messages[k];
        params.push(SqlParam::Integer(completion_id));
        params.push(SqlParam::Text(String::from_str(m.role.as_str())));
        params.push(SqlParam::Text(m.content.clone()));
        assert forall|i: int| 0 <= i < k + 1 implies #[trigger] message_row_matches(
            params@,
            3 * i,
            completion_id,
            messages@[i],
        ) by {
            if i < k {
                assert(message_row_matches(before, 3 * i, completion_id, messages@[i]));
                assert(params@[3 * i] == before[3 * i]);
                assert(params@[3 * i + 1] == before[3 * i + 1]);
                assert(params@[3 * i + 2] == before[3 * i + 2]);
            }
        }
        k = k + 1;
    }
    params
}

/// The values for the completion statement, in its column order.
pub open spec fn completion_row(
    prompt: Seq<char>,
    model_name: Seq<char>,
    params: ModelOptions,
    usage: Usage,
    duration_secs_bits: u64,
    error: Option<Seq<char>>,
    ps: Seq<SqlParam>,
) -> bool {
    &&& ps.len() == 12
    &&& is_text(ps[0], prompt)
    &&& is_text(ps[1], model_name)
    &&& ps[2] == SqlParam::Integer(params.max_tokens as i64)
    &&& ps[3] == SqlParam::Real32(params.temperature_bits)
    &&& ps[4] == SqlParam::Real32(params.repeat_penalty_bits)
    &&& ps[5] == SqlParam::Integer(params.repeat_penalty_last_n_token_count as i64)
    &&& ps[6] == SqlParam::Integer(params.top_k as i64)
    &&& ps[7] == SqlParam::Real32(params.top_p_bits)
    &&& ps[8] == SqlParam::Integer(usage.prompt_token_count as i64)
    &&& ps[9] == SqlParam::Integer(usage.generated_token_count as i64)
    &&& ps[10] == SqlParam::Real64(duration_secs_bits)
    &&& match error {
        Some(e) => is_text(ps[11], e),
        None => ps[11] == SqlParam::Null,
    }
}

/// The values that record one completion call; the duration is the elapsed
/// seconds, as the bit pattern of a double-precision value.
pub fn completion_params(
    prompt: &str,
    model_name: &str,
    params: &ModelOptions,
    usage: &Usage,
    duration_secs_bits: u64,
    error: Option<&str>,
) -> (r: Vec<SqlParam>)
    ensures
        completion_row(
            prompt@,
            model_name@,
            *params,
            *usage,
            duration_secs_bits,
            match error {
                Some(e) => Some(e@),
                None => None,
            },
            r@,
        ),
{
    let last = match error {
        Some(e) => SqlParam::Text(String::from_str(e)),
        None => SqlParam::Null,
    };
    let mut ps: Vec<SqlParam> = Vec::new();
    ps.push(SqlParam::Text(String::from_str(prompt)));
    ps.push(SqlParam::Text(String::from_str(model_name)));
    ps.push(SqlParam::Integer(params.max_tokens as i64));
    ps.push(SqlParam::Real32(params.temperature_bits));
    ps.push(SqlParam::Real32(params.repeat_penalty_bits));
    ps.push(SqlParam::Integer(params.repeat_penalty_last_n_token_count as i64));
    ps.push(SqlParam::Integer(params.top_k as i64));
    ps.push(SqlParam::Real32(params.top_p_bits));
    ps.push(SqlParam::Integer(usage.prompt_token_count as i64));
    ps.push(SqlParam::Integer(usage.generated_token_count as i64));
    ps.push(SqlParam::Real64(duration_secs_bits));
    ps.push(last);
    ps
}

/// The error text of a tracking record, as a view.
pub open spec fn error_view(error: Option<String>) -> Option<Seq<char>> {
    match error {
        Some(e) => Some(e@),
        None => None,
    }
}

/// The values that record `record`, which took `duration_secs_bits` (the bit
/// pattern of the elapsed seconds in double precision).
pub fn record_params(record: &TrackingRecord, duration_secs_bits: u64) -> (r: Vec<SqlParam>)
    ensures
        completion_row(
            record.call.prompt@,
            record.call.model.name_of(),
            record.call.params,
            record.usage,
            duration_secs_bits,
            error_view(record.error),
            r@,
        ),
{
    let error = match &record.error {
        Some(e) => Some(e.as_str()),
        None => None,
    };
    completion_params(
        record.call.prompt.as_str(),
        record.call.model.as_str(),
        &record.call.params,
        &record.usage,
        duration_secs_bits,
        error,
    )
}

} // verus!
