use vstd::prelude::*;
use chrono::{Datelike, Timelike};
use crate::agent::tool_trait::{ToolImportance, ToolOutput};
use crate::provider::llm::{LlmMessage, LlmMsgView, llm_msg_view, llm_msg_views};
use crate::text::{decimal, push_decimal, push_str, str_eq, to_string, utf8_len};

verus! {

/// A message of an agent's history, with how much it matters.
#[derive(Debug, Clone)]
pub struct AgentMessage {
    pub role: String,
    pub content: String,
    pub importance: ToolImportance,
}

/// A history message by role, content and importance.
pub type MsgView = (Seq<char>, Seq<char>, ToolImportance);

pub open spec fn msg_view(m: AgentMessage) -> MsgView {
    (m.role@, m.content@, m.importance)
}

/// The views of a sequence of messages.
pub open spec fn msg_views(s: Seq<AgentMessage>) -> Seq<MsgView> {
    s.map_values(|m: AgentMessage| msg_view(m))
}

/// How much of the history is kept: the token threshold (the context budget
/// times its fill ratio) and the most normal and low observations kept.
#[derive(Debug, Clone, Copy)]
pub struct PruneLimits {
    pub threshold: usize,
    pub max_normal: usize,
    pub max_low: usize,
}

/// The counters of a pruning pass: tokens used, normal and low observations
/// kept, observations skipped.
pub type PruneCounters = (int, int, int, int);

/// A message's token estimate: a quarter of its UTF-8 length.
pub open spec fn msg_tokens(m: AgentMessage) -> int {
    (utf8_len(m.content@) / 4) as int
}

/// Whether a message is kept, given the counters of the newer messages.
pub open spec fn admits(c: PruneCounters, m: AgentMessage, lim: PruneLimits) -> bool {
    let (used, normal, low, skipped) = c;
    match m.importance {
        ToolImportance::High => true,
        ToolImportance::Normal => normal < lim.max_normal && used + msg_tokens(m) < lim.threshold,
        ToolImportance::Low => low < lim.max_low && used + msg_tokens(m) < lim.threshold,
    }
}

/// The counters after deciding on `m`.
pub open spec fn prune_step(c: PruneCounters, m: AgentMessage, lim: PruneLimits) -> PruneCounters {
    let (used, normal, low, skipped) = c;
    if admits(c, m, lim) {
        match m.importance {
            ToolImportance::High => (used + msg_tokens(m), normal, low, skipped),
            ToolImportance::Normal => (used + msg_tokens(m), normal + 1, low, skipped),
            ToolImportance::Low => (used + msg_tokens(m), normal, low + 1, skipped),
        }
    } else {
        (used, normal, low, skipped + 1)
    }
}

/// The counters once the messages from index `j` to the end are decided,
/// newest first.
pub open spec fn scan_from(h: Seq<AgentMessage>, lim: PruneLimits, j: int) -> PruneCounters
    decreases h.len() - j,
{
    if j < 0 || j >= h.len() {
        (0, 0, 0, 0)
    } else {
        prune_step(scan_from(h, lim, j + 1), h[j], lim)
    }
}

/// Whether the message at index `j` is kept.
pub open spec fn kept_at(h: Seq<AgentMessage>, lim: PruneLimits, j: int) -> bool {
    admits(scan_from(h, lim, j + 1), h[j], lim)
}

/// The kept messages among the first `n`, in their order.
pub open spec fn kept_prefix(h: Seq<AgentMessage>, lim: PruneLimits, n: int) -> Seq<MsgView>
    decreases n,
{
    if n <= 0 {
        Seq::empty()
    } else if kept_at(h, lim, n - 1) {
        kept_prefix(h, lim, n - 1).push(msg_view(h[n - 1]))
    } else {
        kept_prefix(h, lim, n - 1)
    }
}

/// The note that stands for pruned observations.
pub open spec fn pruned_note(skipped: int) -> Seq<char> {
    "[Earlier: "@ + decimal(skipped as nat) + " observations pruned from context]"@
}

/// The pruned history: a system note when anything was skipped, then the kept
/// messages in order.
pub open spec fn pruned_history(h: Seq<AgentMessage>, lim: PruneLimits) -> Seq<MsgView> {
    let skipped = scan_from(h, lim, 0).3;
    let kept = kept_prefix(h, lim, h.len() as int);
    if skipped > 0 {
        seq![("system"@, pruned_note(skipped), ToolImportance::High)] + kept
    } else {
        kept
    }
}

/// The token estimate of the messages from index `j` to the end.
pub open spec fn tokens_from(h: Seq<AgentMessage>, j: int) -> int
    decreases h.len() - j,
{
    if j < 0 || j >= h.len() {
        0
    } else {
        msg_tokens(h[j]) + tokens_from(h, j + 1)
    }
}

proof fn lemma_scan_bounds(h: Seq<AgentMessage>, lim: PruneLimits, j: int)
    requires
        0 <= j <= h.len(),
    ensures
        0 <= scan_from(h, lim, j).0 <= tokens_from(h, j),
        0 <= scan_from(h, lim, j).3 <= h.len() - j,
        0 <= scan_from(h, lim, j).1 <= h.len() - j,
        0 <= scan_from(h, lim, j).2 <= h.len() - j,
    decreases h.len() - j,
{
    if j < h.len() {
        lemma_scan_bounds(h, lim, j + 1);
    }
}

fn copy_message(m: &AgentMessage) -> (r: AgentMessage)
    ensures
        msg_view(r) == msg_view(*m),
{
    AgentMessage { role: m.role.clone(), content: m.content.clone(), importance: m.importance }
}

/// Prune a history to the context budget, newest first: high-importance
/// messages are always kept; normal and low ones while their counts stay
/// under the limits and the tokens under the threshold. When anything was
/// skipped, a system note that says how many comes first.
pub fn prune_history(history: &Vec<AgentMessage>, lim: PruneLimits) -> (r: Vec<AgentMessage>)
    requires
        tokens_from(history@, 0) <= usize::MAX,
    ensures
        msg_views(r@) == pruned_history(history@, lim),
{
    let n = history.len();
    let ghost h = history@;
    let mut used: usize = 0;
    let mut normal: usize = 0;
    let mut low: usize = 0;
    let mut skipped: usize = 0;
    // keep[k] holds the decision on message n - 1 - k
    let mut keep: Vec<bool> = Vec::new();
    let mut i: usize = n;
    proof {
        lemma_scan_bounds(h, lim, 0);
    }
    while i > 0
        invariant
            i <= n == h.len(),
            h == history@,
            tokens_from(h, 0) <= usize::MAX,
            (used as int, normal as int, low as int, skipped as int) == scan_from(h, lim, i as int),
            keep@.len() == n - i,
            forall|k: int| 0 <= k < n - i ==> keep@[k] == kept_at(h, lim, n - 1 - k),
        decreases i,
    {
        let m = &history[i - 1];
        let tokens: usize = m.content.as_str().as_bytes().len() / 4;
        proof {
            lemma_scan_bounds(h, lim, i as int);
            lemma_tokens_mono(h, i - 1);
        }
        let accept = match m.importance {
            ToolImportance::High => true,
            ToolImportance::Normal => normal < lim.max_normal && used + tokens < lim.threshold,
            ToolImportance::Low => low < lim.max_low && used + tokens < lim.threshold,
        };
        if accept {
            used = used + tokens;
            match m.importance {
                ToolImportance::High => {},
                ToolImportance::Normal => {
                    normal = normal + 1;
                },
                ToolImportance::Low => {
                    low = low + 1;
                },
            }
        } else {
            skipped = skipped + 1;
        }
        keep.push(accept);
        i -= 1;
    }
    let mut out: Vec<AgentMessage> = Vec::new();
    if skipped > 0 {
        let mut note = to_string("[Earlier: ");
        push_decimal(&mut note, skipped as u64);
        push_str(&mut note, " observations pruned from context]");
        out.push(
            AgentMessage { role: to_string("system"), content: note, importance: ToolImportance::High },
        );
    }
    let ghost head = msg_views(out@);
    assert(kept_prefix(h, lim, 0) =~= Seq::<MsgView>::empty());
    assert(head + kept_prefix(h, lim, 0) =~= head);
    let mut j: usize = 0;
    while j < n
        invariant
            j <= n == h.len(),
            h == history@,
            keep@.len() == n,
            forall|k: int| 0 <= k < n ==> keep@[k] == kept_at(h, lim, n - 1 - k),
            msg_views(out@) == head + kept_prefix(h, lim, j as int),
        decreases n - j,
    {
        if keep[n - 1 - j] {
            let c = copy_message(&history[j]);
            let ghost before = out@;
            out.push(c);
            assert(msg_views(out@) =~= msg_views(before).push(msg_view(c)));
            assert(msg_views(out@) =~= head + kept_prefix(h, lim, j + 1));
        }
        j += 1;
    }
    proof {
        if skipped > 0 {
            assert(head =~= seq![("system"@, pruned_note(skipped as int), ToolImportance::High)]);
        } else {
            assert(head =~= Seq::<MsgView>::empty());
            assert(head + kept_prefix(h, lim, n as int) =~= kept_prefix(h, lim, n as int));
        }
    }
    out
}

proof fn lemma_tokens_mono(h: Seq<AgentMessage>, j: int)
    requires
        0 <= j < h.len(),
    ensures
        msg_tokens(h[j]) + tokens_from(h, j + 1) <= tokens_from(h, 0),
    decreases j,
{
    if j > 0 {
        lemma_tokens_mono(h, j - 1);
    }
}

/// How many messages of the given importance are kept, from index `j` on.
pub open spec fn kept_of(h: Seq<AgentMessage>, lim: PruneLimits, j: int, imp: ToolImportance) -> int
    decreases h.len() - j,
{
    if j < 0 || j >= h.len() {
        0
    } else {
        (if kept_at(h, lim, j) && h[j].importance == imp {
            1int
        } else {
            0int
        }) + kept_of(h, lim, j + 1, imp)
    }
}

/// How many messages are dropped among the first `n`.
pub open spec fn dropped_prefix(h: Seq<AgentMessage>, lim: PruneLimits, n: int) -> int
    decreases n,
{
    if n <= 0 {
        0
    } else {
        dropped_prefix(h, lim, n - 1) + (if kept_at(h, lim, n - 1) {
            0int
        } else {
            1int
        })
    }
}

proof fn lemma_counters_count(h: Seq<AgentMessage>, lim: PruneLimits, j: int)
    requires
        0 <= j <= h.len(),
    ensures
        scan_from(h, lim, j).1 == kept_of(h, lim, j, ToolImportance::Normal),
        scan_from(h, lim, j).2 == kept_of(h, lim, j, ToolImportance::Low),
        scan_from(h, lim, j).1 <= lim.max_normal,
        scan_from(h, lim, j).2 <= lim.max_low,
        dropped_prefix(h, lim, j) + scan_from(h, lim, j).3 == scan_from(h, lim, 0).3,
    decreases j,
{
    lemma_counters_suffix(h, lim, j);
    if j > 0 {
        lemma_counters_count(h, lim, j - 1);
    }
}

proof fn lemma_counters_suffix(h: Seq<AgentMessage>, lim: PruneLimits, j: int)
    requires
        0 <= j <= h.len(),
    ensures
        scan_from(h, lim, j).1 == kept_of(h, lim, j, ToolImportance::Normal),
        scan_from(h, lim, j).2 == kept_of(h, lim, j, ToolImportance::Low),
        scan_from(h, lim, j).1 <= lim.max_normal,
        scan_from(h, lim, j).2 <= lim.max_low,
    decreases h.len() - j,
{
    if j < h.len() {
        lemma_counters_suffix(h, lim, j + 1);
    }
}

proof fn lemma_kept_prefix_len(h: Seq<AgentMessage>, lim: PruneLimits, n: int)
    requires
        0 <= n <= h.len(),
    ensures
        kept_prefix(h, lim, n).len() + dropped_prefix(h, lim, n) == n,
    decreases n,
{
    if n > 0 {
        lemma_kept_prefix_len(h, lim, n - 1);
    }
}

/// Pruning keeps every high-importance message, keeps at most `max_normal`
/// normal and `max_low` low observations, and the note counts exactly the
/// messages that were dropped.
pub proof fn lemma_prune_laws(h: Seq<AgentMessage>, lim: PruneLimits)
    ensures
        forall|j: int|
            0 <= j < h.len() && h[j].importance == ToolImportance::High ==> #[trigger] kept_at(
                h,
                lim,
                j,
            ),
        kept_of(h, lim, 0, ToolImportance::Normal) <= lim.max_normal,
        kept_of(h, lim, 0, ToolImportance::Low) <= lim.max_low,
        kept_prefix(h, lim, h.len() as int).len() + scan_from(h, lim, 0).3 == h.len(),
{
    lemma_counters_count(h, lim, h.len() as int);
    lemma_counters_suffix(h, lim, 0);
    lemma_kept_prefix_len(h, lim, h.len() as int);
}

/// How many tool results stay in the chat before older ones are collapsed.
pub const MAX_TOOL_HISTORY: usize = 6;

/// Whether a chat message belongs to a tool exchange.
pub open spec fn is_tool_exchange(m: LlmMessage) -> bool {
    m.role@ == "tool"@ || m.role@ == "assistant"@
}

/// How many of the first `n` messages, counted back from message `n - 1`,
/// belong to tool exchanges without a break.
pub open spec fn trailing_exchanges(m: Seq<LlmMessage>, n: int) -> int
    decreases n,
{
    if n <= 0 {
        0
    } else if is_tool_exchange(m[n - 1]) {
        1 + trailing_exchanges(m, n - 1)
    } else {
        0
    }
}

/// Where the collapsible part of a chat starts: after the system message and
/// the user message that follows it, if any.
pub open spec fn collapse_start(m: Seq<LlmMessage>) -> int {
    if m.len() > 1 && m[1].role@ == "user"@ {
        2
    } else {
        1
    }
}

/// How many tool results lie among the messages `lo..hi`.
pub open spec fn tool_results_between(m: Seq<LlmMessage>, lo: int, hi: int) -> int
    decreases hi - lo,
{
    if hi <= lo {
        0
    } else {
        tool_results_between(m, lo, hi - 1) + (if m[hi - 1].role@ == "tool"@ {
            1int
        } else {
            0int
        })
    }
}

/// The note that stands for collapsed tool results.
pub open spec fn collapse_note(count: int) -> LlmMsgView {
    ("system"@, "["@ + decimal(count as nat) + " tool results completed]"@, None, None)
}

/// Whether a chat is long enough in tool exchanges to be collapsed.
pub open spec fn collapses(m: Seq<LlmMessage>) -> bool {
    trailing_exchanges(m, m.len() as int) > 2 * MAX_TOOL_HISTORY && m.len() - 2
        * MAX_TOOL_HISTORY > collapse_start(m)
}

/// The chat after collapsing: the messages between the start and the last
/// twelve are replaced by a note that counts their tool results.
pub open spec fn collapsed_chat(m: Seq<LlmMessage>) -> Seq<LlmMsgView> {
    let k = collapse_start(m);
    let end = m.len() - 2 * MAX_TOOL_HISTORY;
    if collapses(m) {
        llm_msg_views(m.subrange(0, k)) + seq![collapse_note(tool_results_between(m, k, end))]
            + llm_msg_views(m.subrange(end, m.len() as int))
    } else {
        llm_msg_views(m)
    }
}

fn is_exchange(m: &LlmMessage) -> (r: bool)
    ensures
        r == is_tool_exchange(*m),
{
    str_eq(m.role.as_str(), "tool") || str_eq(m.role.as_str(), "assistant")
}

/// Collapse old tool exchanges into one note when more than twelve messages
/// of tool exchanges end the chat; the system message, the user message after
/// it and the last twelve messages stay.
pub fn collapse_old_tool_calls(messages: &mut Vec<LlmMessage>)
    ensures
        llm_msg_views(final(messages)@) == collapsed_chat(old(messages)@),
{
    let ghost m = messages@;
    let n = messages.len();
    let keep_from: usize = if n > 1 && str_eq(messages[1].role.as_str(), "user") {
        2
    } else {
        1
    };
    let mut tail: usize = 0;
    let mut i: usize = n;
    while i > 0 && is_exchange(&messages[i - 1])
        invariant
            i <= n == m.len(),
            messages@ == m,
            tail == n - i,
            trailing_exchanges(m, n as int) == tail + trailing_exchanges(m, i as int),
        decreases i,
    {
        tail = tail + 1;
        i -= 1;
    }
    if tail <= 2 * MAX_TOOL_HISTORY {
        return;
    }
    let end = n - 2 * MAX_TOOL_HISTORY;
    if end <= keep_from {
        return;
    }
    let mut count: usize = 0;
    let mut j: usize = keep_from;
    while j < end
        invariant
            keep_from <= j <= end < n == m.len(),
            messages@ == m,
            count == tool_results_between(m, keep_from as int, j as int),
            count <= j - keep_from,
        decreases end - j,
    {
        if str_eq(messages[j].role.as_str(), "tool") {
            count = count + 1;
        }
        j += 1;
    }
    let mut note = to_string("[");
    push_decimal(&mut note, count as u64);
    push_str(&mut note, " tool results completed]");
    let mut rest = messages.split_off(end);
    messages.truncate(keep_from);
    messages.push(
        LlmMessage { role: to_string("system"), content: note, tool_call_id: None, tool_calls: None },
    );
    messages.append(&mut rest);
    proof {
        let a = m.subrange(0, keep_from as int);
        let b = m.subrange(end as int, n as int);
        assert(messages@ =~= a.push(messages@[keep_from as int]) + b);
        assert(llm_msg_views(messages@) =~= llm_msg_views(a) + seq![
            collapse_note(count as int),
        ] + llm_msg_views(b));
    }
}

/// The name of a weekday in Russian, Monday first.
pub open spec fn weekday_name(w: u32) -> Seq<char> {
    if w == 0 {
        "понедельник"@
    } else if w == 1 {
        "вторник"@
    } else if w == 2 {
        "среда"@
    } else if w == 3 {
        "четверг"@
    } else if w == 4 {
        "пятница"@
    } else if w == 5 {
        "суббота"@
    } else if w == 6 {
        "воскресенье"@
    } else {
        Seq::empty()
    }
}

/// The name of a month in Russian, in the genitive, January as 1.
pub open spec fn month_name(m: u32) -> Seq<char> {
    if m == 1 {
        "января"@
    } else if m == 2 {
        "февраля"@
    } else if m == 3 {
        "марта"@
    } else if m == 4 {
        "апреля"@
    } else if m == 5 {
        "мая"@
    } else if m == 6 {
        "июня"@
    } else if m == 7 {
        "июля"@
    } else if m == 8 {
        "августа"@
    } else if m == 9 {
        "сентября"@
    } else if m == 10 {
        "октября"@
    } else if m == 11 {
        "ноября"@
    } else if m == 12 {
        "декабря"@
    } else {
        Seq::empty()
    }
}

fn weekday_str(w: u32) -> (r: &'static str)
    ensures
        r@ == weekday_name(w),
{
    if w == 0 {
        "понедельник"
    } else if w == 1 {
        "вторник"
    } else if w == 2 {
        "среда"
    } else if w == 3 {
        "четверг"
    } else if w == 4 {
        "пятница"
    } else if w == 5 {
        "суббота"
    } else if w == 6 {
        "воскресенье"
    } else {
        proof {
            reveal_strlit("");
        }
        ""
    }
}

fn month_str(m: u32) -> (r: &'static str)
    ensures
        r@ == month_name(m),
{
    if m == 1 {
        "января"
    } else if m == 2 {
        "февраля"
    } else if m == 3 {
        "марта"
    } else if m == 4 {
        "апреля"
    } else if m == 5 {
        "мая"
    } else if m == 6 {
        "июня"
    } else if m == 7 {
        "июля"
    } else if m == 8 {
        "августа"
    } else if m == 9 {
        "сентября"
    } else if m == 10 {
        "октября"
    } else if m == 11 {
        "ноября"
    } else if m == 12 {
        "декабря"
    } else {
        proof {
            reveal_strlit("");
        }
        ""
    }
}

/// The digits of `n` padded with zeros to `width` places.
pub open spec fn padded(n: nat, width: nat) -> Seq<char>
    decreases width,
{
    if width <= 1 {
        seq![crate::text::digit_char(n % 10)]
    } else {
        padded(n / 10, (width - 1) as nat).push(crate::text::digit_char(n % 10))
    }
}

fn push_padded(s: &mut String, n: u32, width: u32)
    requires
        1 <= width <= 4,
    ensures
        final(s)@ == old(s)@ + padded(n as nat, width as nat),
    decreases width,
{
    if width > 1 {
        push_padded(s, n / 10, width - 1);
    }
    let d: u8 = (n % 10) as u8;
    let c: char = (48u8 + d) as char;
    crate::text::push_char(s, c);
    assert(final(s)@ =~= old(s)@ + padded(n as nat, width as nat));
}

/// At least four digits of `n`: zero-padded below 10000.
pub open spec fn four_digits(n: nat) -> Seq<char> {
    if n <= 9999 {
        padded(n, 4)
    } else {
        decimal(n)
    }
}

/// A year as `%Y` writes it: four digits for years 0 to 9999, otherwise
/// signed with at least four digits.
pub open spec fn year_text(y: int) -> Seq<char> {
    if 0 <= y <= 9999 {
        padded(y as nat, 4)
    } else if y > 9999 {
        seq!['+'] + decimal(y as nat)
    } else {
        seq!['-'] + four_digits((-y) as nat)
    }
}

fn push_year(s: &mut String, y: i32)
    ensures
        final(s)@ == old(s)@ + year_text(y as int),
{
    let neg = y < 0;
    let m: u64 = if y == i32::MIN {
        2147483648u64
    } else if neg {
        (-y) as u64
    } else {
        y as u64
    };
    if !neg && m <= 9999 {
        push_padded(s, m as u32, 4);
    } else {
        if neg {
            crate::text::push_char(s, '-');
        } else {
            crate::text::push_char(s, '+');
        }
        if m <= 9999 {
            push_padded(s, m as u32, 4);
        } else {
            push_decimal(s, m);
        }
    }
    assert(final(s)@ =~= old(s)@ + year_text(y as int));
}

/// The system prompt of the agent for the given moment: weekday (Monday is
/// 0), day, month (January is 1) and time at UTC+3, and the year.
pub open spec fn system_prompt(
    weekday: u32,
    day: u32,
    month: u32,
    year: i32,
    hour: u32,
    minute: u32,
) -> Seq<char> {
    "Ты — AI-агент Brain. Сегодня "@ + weekday_name(weekday) + ", "@ + (if day == 0 {
        Seq::<char>::empty()
    } else {
        decimal(day as nat)
    }) + " "@ + month_name(month) + " "@ + year_text(year as int) + " года, "@ + padded(
        hour as nat,
        2,
    ) + ":"@ + padded(minute as nat, 2) + " MSK.\n\n"@ + prompt_principles()
}

/// The fixed part of the system prompt.
pub open spec fn prompt_principles() -> Seq<char> {
    "Ты работаешь в терминале. У тебя есть инструменты для работы с файлами, shell, браузером и задачами.\n\nПринципы:\n- Действуй решительно. Выполняй задачу целиком, не фрагментами.\n- Планируй через todo_create, отмечай прогресс через todo_update.\n- Не спрашивай подтверждений — делай.\n- Не создавай лишних файлов.\n- Отвечай на языке пользователя. Будь краток."@
}

/// The system prompt of the agent for the given moment.
pub fn build_system_prompt(
    weekday: u32,
    day: u32,
    month: u32,
    year: i32,
    hour: u32,
    minute: u32,
) -> (r: String)
    requires
        hour < 24,
        minute < 60,
    ensures
        r@ == system_prompt(weekday, day, month, year, hour, minute),
{
    let mut s = to_string("Ты — AI-агент Brain. Сегодня ");
    push_str(&mut s, weekday_str(weekday));
    push_str(&mut s, ", ");
    if day != 0 {
        push_decimal(&mut s, day as u64);
    } else {
        assert(s@ + Seq::<char>::empty() =~= s@);
    }
    push_str(&mut s, " ");
    push_str(&mut s, month_str(month));
    push_str(&mut s, " ");
    push_year(&mut s, year);
    push_str(&mut s, " года, ");
    push_padded(&mut s, hour, 2);
    push_str(&mut s, ":");
    push_padded(&mut s, minute, 2);
    push_str(&mut s, " MSK.\n\n");
    push_str(
        &mut s,
        "Ты работаешь в терминале. У тебя есть инструменты для работы с файлами, shell, браузером и задачами.\n\nПринципы:\n- Действуй решительно. Выполняй задачу целиком, не фрагментами.\n- Планируй через todo_create, отмечай прогресс через todo_update.\n- Не спрашивай подтверждений — делай.\n- Не создавай лишних файлов.\n- Отвечай на языке пользователя. Будь краток.",
    );
    s
}

/// The UTC calendar fields of a Unix time in seconds: weekday (Monday is 0),
/// day, month, year, hour and minute; `None` outside the dates the calendar
/// represents.
pub uninterp spec fn utc_calendar(secs: i64) -> Option<(u32, u32, u32, i32, u32, u32)>;

/// `chrono::DateTime::<Utc>::from_timestamp(secs, 0)` and its `Datelike` and
/// `Timelike` fields (`weekday().num_days_from_monday()`, `day`, `month`,
/// `year`, `hour`, `minute`), each within its documented range.
#[verifier::external_body]
fn calendar_at(secs: i64) -> (r: Option<(u32, u32, u32, i32, u32, u32)>)
    ensures
        r == utc_calendar(secs),
        r matches Some(f) ==> f.0 < 7 && 1 <= f.1 <= 31 && 1 <= f.2 <= 12 && f.4 < 24 && f.5 < 60,
{
    match chrono::DateTime::from_timestamp(secs, 0) {
        Some(t) => Some(
            (
                t.weekday().num_days_from_monday(),
                t.day(),
                t.month(),
                t.year(),
                t.hour(),
                t.minute(),
            ),
        ),
        None => None,
    }
}

/// Three hours, the offset of the prompt's clock from UTC.
pub const PROMPT_UTC_OFFSET_SECS: i64 = 10800;

/// The system prompt at Unix time `now_secs`: weekday, date and time three
/// hours ahead of UTC, with the UTC year; `None` when either moment is
/// outside the calendar.
pub open spec fn prompt_at(now_secs: i64) -> Option<Seq<char>> {
    if now_secs > i64::MAX - PROMPT_UTC_OFFSET_SECS {
        None
    } else {
        match (utc_calendar((now_secs + PROMPT_UTC_OFFSET_SECS) as i64), utc_calendar(now_secs)) {
            (Some(l), Some(u)) => Some(system_prompt(l.0, l.1, l.2, u.3, l.4, l.5)),
            _ => None,
        }
    }
}

/// The system prompt of the agent at Unix time `now_secs`, in seconds.
pub fn system_prompt_at(now_secs: i64) -> (r: Option<String>)
    ensures
        match prompt_at(now_secs) {
            Some(p) => r matches Some(s) && s@ == p,
            None => r is None,
        },
{
    if now_secs > i64::MAX - PROMPT_UTC_OFFSET_SECS {
        return None;
    }
    let local = match calendar_at(now_secs + PROMPT_UTC_OFFSET_SECS) {
        Some(f) => f,
        None => return None,
    };
    let utc = match calendar_at(now_secs) {
        Some(f) => f,
        None => return None,
    };
    Some(build_system_prompt(local.0, local.1, local.2, utc.3, local.4, local.5))
}

/// Collapsing keeps the chat's first message and its last twelve, and never
/// makes the chat longer.
pub proof fn lemma_collapse_laws(m: Seq<LlmMessage>)
    requires
        m.len() > 0,
    ensures
        collapsed_chat(m).len() > 0,
        collapsed_chat(m)[0] == llm_msg_view(m[0]),
        collapses(m) ==> collapsed_chat(m).len() == collapse_start(m) + 1 + 2 * MAX_TOOL_HISTORY,
        collapses(m) ==> collapsed_chat(m).len() <= m.len(),
        collapses(m) ==> forall|i: int|
            0 <= i < 2 * MAX_TOOL_HISTORY ==> #[trigger] collapsed_chat(m)[collapsed_chat(m).len()
                - 1 - i] == llm_msg_view(m[m.len() - 1 - i]),
{
}

/// An event of a running agent, as streamed to clients; `ts` is a Unix time
/// in seconds and tool arguments are JSON text.
#[derive(Debug, Clone)]
pub enum WsAgentEvent {
    Thought { text: String, ts: i64 },
    Text { text: String, ts: i64 },
    ToolCall { tool: String, call_id: String, args: String, ts: i64 },
    ToolResult { call_id: String, success: bool, summary: String, ts: i64 },
    Done { summary: String, total_tokens: usize, total_calls: usize, ts: i64 },
    Error { message: String, ts: i64 },
}

impl WsAgentEvent {
    /// Whether the event ends the agent's stream.
    pub fn is_terminal(&self) -> (r: bool)
        ensures
            r <==> (*self is Done || *self is Error),
    {
        match self {
            WsAgentEvent::Done { .. } | WsAgentEvent::Error { .. } => true,
            _ => false,
        }
    }
}

} // verus!
