use vstd::prelude::*;
use crate::model::{Message, MessageRole};

verus! {

/// Why a message sequence cannot be turned into a prompt.
#[derive(Clone, Copy, Debug, PartialEq, Eq, Structural)]
pub enum FormatError {
    /// There are no messages at all.
    EmptyInput,
    /// The first message was written by the assistant.
    InvalidFirstRole,
    /// A system message stands after the first position.
    MisplacedSystemRole,
    /// A role name is none of `system`, `user`, `assistant`.
    InvalidRole,
}

/// The opening of every prompt.
pub open spec fn prompt_prefix() -> Seq<char> {
    "<s>[INST] "@
}

/// The blank line between two rendered messages.
pub open spec fn block_separator() -> Seq<char> {
    "\n\n"@
}

pub open spec fn sys_block(content: Seq<char>) -> Seq<char> {
    "<<SYS>>\n"@ + content + "\n<</SYS>>"@
}

pub open spec fn usr_block(content: Seq<char>) -> Seq<char> {
    content + " [/INST]"@
}

pub open spec fn asst_block(content: Seq<char>) -> Seq<char> {
    content + " </s><s>[INST]"@
}

/// The fragment that one message renders to.
pub open spec fn block_of(m: Message) -> Seq<char> {
    match m.role {
        MessageRole::System => sys_block(m.content@),
        MessageRole::User => usr_block(m.content@),
        MessageRole::Assistant => asst_block(m.content@),
    }
}

/// The fragments of all messages, in order, with a blank line between two.
pub open spec fn joined_blocks(ms: Seq<Message>) -> Seq<char>
    decreases ms.len(),
{
    if ms.len() == 0 {
        Seq::empty()
    } else if ms.len() == 1 {
        block_of(ms[0])
    } else {
        joined_blocks(ms.drop_last()) + block_separator() + block_of(ms.last())
    }
}

pub open spec fn rendered(ms: Seq<Message>) -> Seq<char> {
    prompt_prefix() + joined_blocks(ms)
}

/// A system message stands somewhere after the first position.
pub open spec fn has_late_system(ms: Seq<Message>) -> bool {
    exists|i: int| 1 <= i < ms.len() && #[trigger] ms[i].role == MessageRole::System
}

/// The first structural fault of a message sequence, if any.
pub open spec fn fault_of(ms: Seq<Message>) -> Option<FormatError> {
    if ms.len() == 0 {
        Some(FormatError::EmptyInput)
    } else if ms[0].role == MessageRole::Assistant {
        Some(FormatError::InvalidFirstRole)
    } else if has_late_system(ms) {
        Some(FormatError::MisplacedSystemRole)
    } else {
        None
    }
}

/// The prompt of the Llama 2 chat template, or the fault that forbids it.
pub open spec fn llama2_prompt(ms: Seq<Message>) -> Result<Seq<char>, FormatError> {
    match fault_of(ms) {
        Some(e) => Err(e),
        None => Ok(rendered(ms)),
    }
}

/// Two message sequences with the same roles and texts, position by position.
pub open spec fn same_messages(a: Seq<Message>, b: Seq<Message>) -> bool {
    &&& a.len() == b.len()
    &&& forall|i: int|
        0 <= i < a.len() ==> (#[trigger] a[i]).role == b[i].role && a[i].content@ == b[i].content@
}

/// Turns an ordered list of chat messages into one prompt string.
pub trait PromptFormatter {
    /// What `format` returns for a message sequence.
    spec fn prompt_of(&self, messages: Seq<Message>) -> Result<Seq<char>, FormatError>;

    fn format(&self, messages: &[Message]) -> (r: Result<String, FormatError>)
        ensures
            match r {
                Ok(s) => self.prompt_of(messages@) == Ok::<Seq<char>, FormatError>(s@),
                Err(e) => self.prompt_of(messages@) == Err::<Seq<char>, FormatError>(e),
            },
    ;
}

/// The Llama 2 chat template with strict role validation.
#[derive(Clone, Copy, Debug)]
pub struct Llama2PromptFormatter {}

impl Default for Llama2PromptFormatter {
    fn default() -> (r: Llama2PromptFormatter) {
        Llama2PromptFormatter {}
    }
}

impl Llama2PromptFormatter {
    pub fn format_usr(content: &str) -> (r: String)
        ensures
            r@ == usr_block(content@),
    {
        let mut s = String::from_str(content);
        s.append(" [/INST]");
        s
    }

    pub fn format_asst(content: &str) -> (r: String)
        ensures
            r@ == asst_block(content@),
    {
        let mut s = String::from_str(content);
        s.append(" </s><s>[INST]");
        s
    }

    pub fn format_sys(content: &str) -> (r: String)
        ensures
            r@ == sys_block(content@),
    {
        let mut s = String::from_str("<<SYS>>\n");
        s.append(content);
        s.append("\n<</SYS>>");
        s
    }

    fn format_block(m: &Message) -> (r: String)
        ensures
            r@ == block_of(*m),
    {
        match m.role {
            MessageRole::System => Self::format_sys(m.content.as_str()),
            MessageRole::User => Self::format_usr(m.content.as_str()),
            MessageRole::Assistant => Self::format_asst(m.content.as_str()),
        }
    }

    /// The first structural fault of `messages`, found in one pass from the front.
    pub fn check_roles(messages: &[Message]) -> (r: Option<FormatError>)
        ensures
            r == fault_of(messages@),
    {
        if messages.len() == 0 {
            return Some(FormatError::EmptyInput);
        }
        if matches!(messages[0].role, MessageRole::Assistant) {
            return Some(FormatError::InvalidFirstRole);
        }
        let mut i: usize = 1;
        while i < messages.len()
            invariant
                1 <= i <= messages@.len(),
                messages@[0].role != MessageRole::Assistant,
                forall|j: int| 1 <= j < i ==> #[trigger] messages@[j].role != MessageRole::System,
            decreases messages@.len() - i,
        {
            if matches!(messages[i].role, MessageRole::System) {
                assert(messages@[i as int].role == MessageRole::System);
                return Some(FormatError::MisplacedSystemRole);
            }
            i = i + 1;
        }
        None
    }

    /// Renders every message and joins the fragments; no validation.
    fn render(messages: &[Message]) -> (r: String)
        ensures
            r@ == rendered(messages@),
    {
        let mut prompt = String::from_str("<s>[INST] ");
        let mut k: usize = 0;
        while k < messages.len()
            invariant
                k <= messages@.len(),
                prompt@ == prompt_prefix() + joined_blocks(messages@.subrange(0, k as int)),
            decreases messages@.len() - k,
        {
            let block = Self::format_block(&messages[k]);
            let ghost before = messages@.subrange(0, k as int);
            let ghost after = messages@.subrange(0, k + 1);
            assert(after.drop_last() =~= before);
            assert(after.last() == messages@[k as int]);
            if k > 0 {
                prompt.append("\n\n");
            }
            prompt.append(block.as_str());
            proof {
                if k == 0 {
                    assert(joined_blocks(before) =~= Seq::empty());
                }
                assert(prompt@ =~= prompt_prefix() + joined_blocks(after));
            }
            k = k + 1;
        }
        assert(messages@.subrange(0, messages@.len() as int) =~= messages@);
        prompt
    }
}

impl PromptFormatter for Llama2PromptFormatter {
    open spec fn prompt_of(&self, messages: Seq<Message>) -> Result<Seq<char>, FormatError> {
        llama2_prompt(messages)
    }

    fn format(&self, messages: &[Message]) -> (r: Result<String, FormatError>) {
        match Self::check_roles(messages) {
            Some(e) => Err(e),
            None => Ok(Self::render(messages)),
        }
    }
}

proof fn lemma_joined_blocks_same(a: Seq<Message>, b: Seq<Message>)
    requires
        same_messages(a, b),
    ensures
        joined_blocks(a) == joined_blocks(b),
    decreases a.len(),
{
    if a.len() > 1 {
        let (pa, pb) = (a.drop_last(), b.drop_last());
        assert(same_messages(pa, pb)) by {
            assert forall|i: int| 0 <= i < pa.len() implies (#[trigger] pa[i]).role == pb[i].role
                && pa[i].content@ == pb[i].content@ by {
                assert(a[i] == pa[i] && b[i] == pb[i]);
            }
        }
        lemma_joined_blocks_same(pa, pb);
        assert(a[a.len() - 1].role == b[a.len() - 1].role);
    } else if a.len() == 1 {
        assert(a[0].role == b[0].role);
    }
}

/// Formatting is deterministic: message sequences with the same roles and
/// texts give the same prompt, or the same fault.
pub proof fn lemma_format_deterministic(a: Seq<Message>, b: Seq<Message>)
    requires
        same_messages(a, b),
    ensures
        llama2_prompt(a) == llama2_prompt(b),
{
    lemma_joined_blocks_same(a, b);
    if a.len() > 0 {
        assert(a[0].role == b[0].role);
    }
    assert(has_late_system(a) == has_late_system(b)) by {
        if has_late_system(a) {
            let i = choose|i: int| 1 <= i < a.len() && #[trigger] a[i].role == MessageRole::System;
            assert(b[i].role == MessageRole::System);
        }
        if has_late_system(b) {
            let i = choose|i: int| 1 <= i < b.len() && #[trigger] b[i].role == MessageRole::System;
            assert(a[i].role == b[i].role);
        }
    }
}

/// A sequence that opens with an assistant message is refused as such.
pub proof fn lemma_assistant_first_is_refused(ms: Seq<Message>)
    requires
        ms.len() > 0,
        ms[0].role == MessageRole::Assistant,
    ensures
        llama2_prompt(ms) == Err::<Seq<char>, FormatError>(FormatError::InvalidFirstRole),
{
}

/// A system message after the first position is refused, whether it is the
/// only system message or a second one; an assistant message in first
/// position is reported before it.
pub proof fn lemma_late_system_is_refused(ms: Seq<Message>, i: int)
    requires
        1 <= i < ms.len(),
        ms[i].role == MessageRole::System,
        ms[0].role != MessageRole::Assistant,
    ensures
        llama2_prompt(ms) == Err::<Seq<char>, FormatError>(FormatError::MisplacedSystemRole),
{
    assert(has_late_system(ms));
}

/// A system message followed by one user message renders as exactly one
/// system block, then the separator, then one user block.
pub proof fn lemma_system_then_user(ms: Seq<Message>)
    requires
        ms.len() == 2,
        ms[0].role == MessageRole::System,
        ms[1].role == MessageRole::User,
    ensures
        llama2_prompt(ms) == Ok::<Seq<char>, FormatError>(
            prompt_prefix() + sys_block(ms[0].content@) + block_separator() + usr_block(
                ms[1].content@,
            ),
        ),
{
    assert(!has_late_system(ms));
    assert(ms.drop_last().len() == 1 && ms.drop_last()[0] == ms[0]);
    assert(joined_blocks(ms.drop_last()) == sys_block(ms[0].content@));
    assert(ms.last() == ms[1]);
    assert(joined_blocks(ms) == sys_block(ms[0].content@) + block_separator() + usr_block(
        ms[1].content@,
    ));
    assert(prompt_prefix() + (sys_block(ms[0].content@) + block_separator() + usr_block(
        ms[1].content@,
    )) =~= prompt_prefix() + sys_block(ms[0].content@) + block_separator() + usr_block(
        ms[1].content@,
    ));
}

/// `n` occurs in `h` starting at position `i`.
pub open spec fn occurs_at(h: Seq<char>, n: Seq<char>, i: int) -> bool {
    0 <= i && i + n.len() <= h.len() && h.subrange(i, i + n.len()) == n
}

/// The tag that opens a system block.
pub open spec fn sys_open_tag() -> Seq<char> {
    "<<SYS>>"@
}

proof fn lemma_occurs_char(h: Seq<char>, n: Seq<char>, i: int, k: int)
    requires
        occurs_at(h, n, i),
        i <= k < i + n.len(),
    ensures
        h[k] == n[k - i],
{
    assert(h.subrange(i, i + n.len())[k - i] == h[k]);
}

proof fn lemma_occurs_inside(h: Seq<char>, n: Seq<char>, i: int, start: int, part: Seq<char>)
    requires
        occurs_at(h, n, i),
        0 <= start <= i,
        i + n.len() <= start + part.len(),
        start + part.len() <= h.len(),
        h.subrange(start, start + part.len()) == part,
    ensures
        occurs_at(part, n, i - start),
{
    assert(part.subrange(i - start, i - start + n.len()) =~= h.subrange(i, i + n.len()));
}

/// In the prompt of a system message followed by a user message, where
/// neither text holds the system tag itself, the system tag occurs exactly
/// once: where the system block opens, right after the prompt's opening.
pub proof fn lemma_system_tag_occurs_once(s: Seq<char>, u: Seq<char>)
    requires
        forall|j: int| !occurs_at(s, sys_open_tag(), j),
        forall|j: int| !occurs_at(u, sys_open_tag(), j),
    ensures
        ({
            let p = prompt_prefix() + sys_block(s) + block_separator() + usr_block(u);
            forall|i: int| occurs_at(p, sys_open_tag(), i) <==> i == prompt_prefix().len()
        }),
{
    reveal_strlit("<s>[INST] ");
    reveal_strlit("<<SYS>>\n");
    reveal_strlit("\n<</SYS>>");
    reveal_strlit("\n\n");
    reveal_strlit(" [/INST]");
    reveal_strlit("<<SYS>>");
    let n = sys_open_tag();
    let l1 = prompt_prefix();
    let l2 = "<<SYS>>\n"@;
    let l3 = "\n<</SYS>>"@;
    let l4 = block_separator();
    let l5 = " [/INST]"@;
    let p = prompt_prefix() + sys_block(s) + block_separator() + usr_block(u);
    assert(p =~= l1 + l2 + s + l3 + l4 + u + l5);
    let p1 = 18int;
    let p2 = p1 + s.len();
    let p3 = p2 + 9;
    let p4 = p3 + 2;
    let p5 = p4 + u.len();
    assert(p.len() == p5 + 8);
    assert(p.subrange(10, 17) =~= n);
    assert forall|i: int| occurs_at(p, n, i) implies i == 10 by {
        if i != 10 {
            if i <= 2 {
                lemma_occurs_char(p, n, i, i + 1);
                assert(p[i + 1] == l1[i + 1]);
            } else if i <= 9 {
                lemma_occurs_char(p, n, i, 9);
                assert(p[9] == ' ');
            } else if i <= 17 {
                lemma_occurs_char(p, n, i, 17);
                assert(p[17] == l2[7]);
            } else if i + 7 <= p2 {
                assert(p.subrange(p1, p2) =~= s);
                lemma_occurs_inside(p, n, i, p1, s);
            } else if i <= p2 {
                lemma_occurs_char(p, n, i, p2);
                assert(p[p2] == l3[0]);
            } else if i <= p2 + 2 {
                lemma_occurs_char(p, n, i, p2 + 3);
                assert(p[p2 + 3] == l3[3]);
            } else if i <= p3 {
                lemma_occurs_char(p, n, i, p3);
                assert(p[p3] == l4[0]);
            } else if i < p4 {
                lemma_occurs_char(p, n, i, p3 + 1);
                assert(p[p3 + 1] == l4[1]);
            } else if i + 7 <= p5 {
                assert(p.subrange(p4, p5) =~= u);
                lemma_occurs_inside(p, n, i, p4, u);
            } else if i <= p5 {
                lemma_occurs_char(p, n, i, p5);
                assert(p[p5] == l5[0]);
            } else {
                lemma_occurs_char(p, n, i, p5 + 1);
                assert(p[p5 + 1] == l5[1]);
            }
        }
    }
}

/// The tag that closes a system block.
pub open spec fn sys_close_tag() -> Seq<char> {
    "<</SYS>>"@
}

/// In the prompt of a system message followed by a user message, where
/// neither text holds the closing system tag, that tag occurs exactly once:
/// right after the system text, before the separator and the user block.
pub proof fn lemma_system_close_tag_occurs_once(s: Seq<char>, u: Seq<char>)
    requires
        forall|j: int| !occurs_at(s, sys_close_tag(), j),
        forall|j: int| !occurs_at(u, sys_close_tag(), j),
    ensures
        ({
            let p = prompt_prefix() + sys_block(s) + block_separator() + usr_block(u);
            forall|i: int|
                occurs_at(p, sys_close_tag(), i) <==> i == prompt_prefix().len() + 9 + s.len()
        }),
{
    reveal_strlit("<s>[INST] ");
    reveal_strlit("<<SYS>>\n");
    reveal_strlit("\n<</SYS>>");
    reveal_strlit("\n\n");
    reveal_strlit(" [/INST]");
    reveal_strlit("<</SYS>>");
    let n = sys_close_tag();
    let l1 = prompt_prefix();
    let l2 = "<<SYS>>\n"@;
    let l3 = "\n<</SYS>>"@;
    let l4 = block_separator();
    let l5 = " [/INST]"@;
    let p = prompt_prefix() + sys_block(s) + block_separator() + usr_block(u);
    assert(p =~= l1 + l2 + s + l3 + l4 + u + l5);
    let p1 = 18int;
    let p2 = p1 + s.len();
    let p3 = p2 + 9;
    let p4 = p3 + 2;
    let p5 = p4 + u.len();
    assert(p.len() == p5 + 8);
    assert(p.subrange(p2 + 1, p2 + 9) =~= n);
    assert forall|i: int| occurs_at(p, n, i) implies i == p2 + 1 by {
        if i != p2 + 1 {
            if i <= 1 {
                lemma_occurs_char(p, n, i, i + 1);
                assert(p[i + 1] == l1[i + 1]);
            } else if i <= 9 {
                lemma_occurs_char(p, n, i, 9);
                assert(p[9] == ' ');
            } else if i <= 17 {
                lemma_occurs_char(p, n, i, 17);
                assert(p[17] == l2[7]);
            } else if i + 8 <= p2 {
                assert(p.subrange(p1, p2) =~= s);
                lemma_occurs_inside(p, n, i, p1, s);
            } else if i <= p2 {
                lemma_occurs_char(p, n, i, p2);
                assert(p[p2] == l3[0]);
            } else if i <= p3 {
                lemma_occurs_char(p, n, i, p3);
                assert(p[p3] == l4[0]);
            } else if i < p4 {
                lemma_occurs_char(p, n, i, p3 + 1);
                assert(p[p3 + 1] == l4[1]);
            } else if i + 8 <= p5 {
                assert(p.subrange(p4, p5) =~= u);
                lemma_occurs_inside(p, n, i, p4, u);
            } else {
                lemma_occurs_char(p, n, i, p5);
                assert(p[p5] == l5[0]);
            }
        }
    }
}

} // verus!
