use vstd::prelude::*;
use crate::text::{push_str, to_string, utf8_len};

verus! {

/// Rough token estimate: one token per four bytes of UTF-8.
pub open spec fn est(t: Seq<char>) -> nat {
    utf8_len(t) / 4
}

/// Rough token estimate (1 token is about 4 bytes of English text).
pub fn estimate_tokens(text: &str) -> (r: usize)
    ensures
        r == est(text@),
{
    text.as_bytes().len() / 4
}

/// A named piece of the assembled prompt.
#[derive(Debug, Clone)]
pub struct ContextSlot {
    pub slot: String,
    pub content: String,
    pub token_estimate: usize,
}

/// The prompt context assembled for a run.
#[derive(Debug, Clone)]
pub struct AssembledContext {
    pub run_id: i64,
    pub project_id: Option<i64>,
    pub slots: Vec<ContextSlot>,
    pub total_tokens: usize,
    pub memory_count: usize,
}

/// A stored memory offered to the context, with its type.
#[derive(Debug, Clone)]
pub struct MemoryLine {
    pub memory_type: String,
    pub content: String,
}

/// A project's name and configuration.
#[derive(Debug, Clone)]
pub struct ProjectInfo {
    pub name: String,
    pub config_json: String,
}

/// What the context of a run is assembled from: the run's own slots, the
/// project, and the candidate memories in layer order (global profile,
/// project, episodic, working).
#[derive(Debug, Clone)]
pub struct ContextSources {
    pub run_id: i64,
    pub project_id: Option<i64>,
    pub max_memory_tokens: usize,
    pub system_prompt: Option<String>,
    pub tools_json: Option<String>,
    pub project: Option<ProjectInfo>,
    pub memories: Vec<MemoryLine>,
    pub conversation_history: Option<String>,
}

/// A slot as (name, content, token estimate).
pub type SlotView = (Seq<char>, Seq<char>, nat);

pub open spec fn slot_view(s: ContextSlot) -> SlotView {
    (s.slot@, s.content@, s.token_estimate as nat)
}

/// The text a memory contributes: `[type] content` and a newline.
pub open spec fn entry_text(m: MemoryLine) -> Seq<char> {
    "["@ + m.memory_type@ + "] "@ + m.content@ + "\n"@
}

/// The project slot's text.
pub open spec fn project_text(p: ProjectInfo) -> Seq<char> {
    "Project: "@ + p.name@ + "\nConfig: "@ + p.config_json@
}

/// The slots that are always kept: system prompt, tools, project.
pub open spec fn base_slots(src: ContextSources) -> Seq<SlotView> {
    let a: Seq<SlotView> = match src.system_prompt {
        Some(p) => seq![("system_prompt"@, p@, est(p@))],
        None => seq![],
    };
    let b: Seq<SlotView> = match src.tools_json {
        Some(t) => seq![("tools_json"@, t@, est(t@))],
        None => seq![],
    };
    let c: Seq<SlotView> = match src.project {
        Some(p) => seq![("project"@, project_text(p), est(project_text(p)))],
        None => seq![],
    };
    a + b + c
}

/// The sum of the token estimates of `slots`.
pub open spec fn slots_tokens(slots: Seq<SlotView>) -> nat
    decreases slots.len(),
{
    if slots.len() == 0 {
        0
    } else {
        slots_tokens(slots.drop_last()) + slots.last().2
    }
}

/// Taking the first `n` memories in order, each only while it fits the budget:
/// (running total, memory text, memories taken).
pub open spec fn take_memories(mems: Seq<MemoryLine>, n: int, start: nat, budget: nat) -> (
    nat,
    Seq<char>,
    nat,
)
    decreases n,
{
    if n <= 0 {
        (start, seq![], 0)
    } else {
        let prev = take_memories(mems, n - 1, start, budget);
        let e = entry_text(mems[n - 1]);
        if prev.0 + est(e) <= budget {
            (prev.0 + est(e), prev.1 + e, prev.2 + 1)
        } else {
            prev
        }
    }
}

/// The sum of the token estimates of every input text: what the running total
/// can reach at most.
pub open spec fn sources_tokens(src: ContextSources) -> nat {
    slots_tokens(base_slots(src)) + all_memory_tokens(src.memories@, src.memories.len() as int)
        + match src.conversation_history {
        Some(h) => est(h@),
        None => 0,
    }
}

pub open spec fn all_memory_tokens(mems: Seq<MemoryLine>, n: int) -> nat
    decreases n,
{
    if n <= 0 {
        0
    } else {
        all_memory_tokens(mems, n - 1) + est(entry_text(mems[n - 1]))
    }
}

/// The assembled context, slot by slot, with the total and the memory count.
pub open spec fn assembled(src: ContextSources) -> (Seq<SlotView>, nat, nat) {
    let base = base_slots(src);
    let base_total = slots_tokens(base);
    let budget = src.max_memory_tokens as nat;
    let taken = take_memories(src.memories@, src.memories.len() as int, base_total, budget);
    let with_mem = if taken.1.len() > 0 {
        base.push(("memories"@, taken.1, (taken.0 - base_total) as nat))
    } else {
        base
    };
    match src.conversation_history {
        Some(h) => if taken.0 + est(h@) <= budget {
            (with_mem.push(("conversation_history"@, h@, est(h@))), taken.0 + est(h@), taken.2)
        } else {
            (with_mem, taken.0, taken.2)
        },
        None => (with_mem, taken.0, taken.2),
    }
}

pub open spec fn context_view(c: AssembledContext) -> Seq<SlotView> {
    c.slots@.map_values(|s: ContextSlot| slot_view(s))
}

proof fn lemma_take_memories_bounds(mems: Seq<MemoryLine>, n: int, start: nat, budget: nat)
    requires
        0 <= n <= mems.len(),
    ensures
        start <= take_memories(mems, n, start, budget).0 <= start + all_memory_tokens(mems, n),
        take_memories(mems, n, start, budget).0 <= if start <= budget {
            budget
        } else {
            start
        },
        take_memories(mems, n, start, budget).2 <= n,
    decreases n,
{
    if n > 0 {
        lemma_take_memories_bounds(mems, n - 1, start, budget);
    }
}

proof fn lemma_slots_tokens_push(s: Seq<SlotView>, x: SlotView)
    ensures
        slots_tokens(s.push(x)) == slots_tokens(s) + x.2,
{
    assert(s.push(x).drop_last() =~= s);
}

pub open spec fn opt_tokens(o: Option<String>) -> nat {
    match o {
        Some(t) => est(t@),
        None => 0,
    }
}

pub open spec fn project_tokens(o: Option<ProjectInfo>) -> nat {
    match o {
        Some(p) => est(project_text(p)),
        None => 0,
    }
}

proof fn lemma_base_tokens(src: ContextSources)
    ensures
        slots_tokens(base_slots(src)) == opt_tokens(src.system_prompt) + opt_tokens(src.tools_json)
            + project_tokens(src.project),
{
    reveal_with_fuel(slots_tokens, 4);
    let base = base_slots(src);
    let a: Seq<SlotView> = match src.system_prompt {
        Some(p) => seq![("system_prompt"@, p@, est(p@))],
        None => seq![],
    };
    let b: Seq<SlotView> = match src.tools_json {
        Some(t) => seq![("tools_json"@, t@, est(t@))],
        None => seq![],
    };
    let c: Seq<SlotView> = match src.project {
        Some(p) => seq![("project"@, project_text(p), est(project_text(p)))],
        None => seq![],
    };
    assert(base == a + b + c);
    if a.len() == 1 {
        if b.len() == 1 {
            if c.len() == 1 {
                assert((a + b + c).drop_last() =~= a + b);
                assert((a + b).drop_last() =~= a);
                assert(a.drop_last() =~= Seq::<SlotView>::empty());
            } else {
                assert(a + b + c =~= a + b);
                assert((a + b).drop_last() =~= a);
                assert(a.drop_last() =~= Seq::<SlotView>::empty());
            }
        } else {
            if c.len() == 1 {
                assert(a + b + c =~= a + c);
                assert((a + c).drop_last() =~= a);
                assert(a.drop_last() =~= Seq::<SlotView>::empty());
            } else {
                assert(a + b + c =~= a);
                assert(a.drop_last() =~= Seq::<SlotView>::empty());
            }
        }
    } else {
        if b.len() == 1 {
            if c.len() == 1 {
                assert(a + b + c =~= b + c);
                assert((b + c).drop_last() =~= b);
                assert(b.drop_last() =~= Seq::<SlotView>::empty());
            } else {
                assert(a + b + c =~= b);
                assert(b.drop_last() =~= Seq::<SlotView>::empty());
            }
        } else {
            if c.len() == 1 {
                assert(a + b + c =~= c);
                assert(c.drop_last() =~= Seq::<SlotView>::empty());
            } else {
                assert(a + b + c =~= Seq::<SlotView>::empty());
            }
        }
    }
}

proof fn lemma_all_memory_tokens_mono(mems: Seq<MemoryLine>, i: int, n: int)
    requires
        0 <= i <= n,
    ensures
        all_memory_tokens(mems, i) <= all_memory_tokens(mems, n),
    decreases n - i,
{
    if i < n {
        lemma_all_memory_tokens_mono(mems, i, n - 1);
    }
}

proof fn lemma_view_push(v: Seq<ContextSlot>, x: ContextSlot)
    ensures
        v.push(x).map_values(|s: ContextSlot| slot_view(s)) == v.map_values(
            |s: ContextSlot| slot_view(s),
        ).push(slot_view(x)),
{
    assert(v.push(x).map_values(|s: ContextSlot| slot_view(s)) =~= v.map_values(
        |s: ContextSlot| slot_view(s),
    ).push(slot_view(x)));
}

fn push_slot(slots: &mut Vec<ContextSlot>, name: &str, content: String, tokens: usize)
    ensures
        final(slots)@.map_values(|s: ContextSlot| slot_view(s)) == old(slots)@.map_values(
            |s: ContextSlot| slot_view(s),
        ).push((name@, content@, tokens as nat)),
{
    let ghost before = slots@;
    let slot = ContextSlot { slot: to_string(name), content, token_estimate: tokens };
    proof {
        lemma_view_push(before, slot);
    }
    slots.push(slot);
}

/// Builds the prompt context of a run: the system prompt, tools and project
/// slots, then as many memories as the token budget admits, then the
/// conversation history if it still fits.
pub fn assemble_context(src: &ContextSources) -> (r: AssembledContext)
    requires
        sources_tokens(*src) <= usize::MAX,
    ensures
        context_view(r) == assembled(*src).0,
        r.total_tokens == assembled(*src).1,
        r.memory_count == assembled(*src).2,
        r.run_id == src.run_id,
        r.project_id == src.project_id,
{
    let ghost base = base_slots(*src);
    let ghost budget = src.max_memory_tokens as nat;
    proof {
        lemma_base_tokens(*src);
    }
    let mut slots: Vec<ContextSlot> = Vec::new();
    let mut total_tokens: usize = 0;
    assert(slots@.map_values(|s: ContextSlot| slot_view(s)) =~= Seq::<SlotView>::empty());
    match &src.system_prompt {
        Some(prompt) => {
            let tokens = estimate_tokens(prompt.as_str());
            push_slot(&mut slots, "system_prompt", prompt.clone(), tokens);
            total_tokens = tokens;
        },
        None => {},
    }
    assert(total_tokens == opt_tokens(src.system_prompt));
    match &src.tools_json {
        Some(tools) => {
            let tokens = estimate_tokens(tools.as_str());
            push_slot(&mut slots, "tools_json", tools.clone(), tokens);
            total_tokens = total_tokens + tokens;
        },
        None => {},
    }
    assert(total_tokens == opt_tokens(src.system_prompt) + opt_tokens(src.tools_json));
    match &src.project {
        Some(project) => {
            let mut text = to_string("Project: ");
            push_str(&mut text, project.name.as_str());
            push_str(&mut text, "\nConfig: ");
            push_str(&mut text, project.config_json.as_str());
            assert(text@ =~= project_text(*project));
            let tokens = estimate_tokens(text.as_str());
            push_slot(&mut slots, "project", text, tokens);
            total_tokens = total_tokens + tokens;
        },
        None => {},
    }
    assert(slots@.map_values(|s: ContextSlot| slot_view(s)) =~= base);
    let ghost base_total = slots_tokens(base);
    assert(total_tokens == base_total);
    let base_tokens = total_tokens;
    let mut memories_text = String::new();
    let mut memory_count: usize = 0;
    let mut i: usize = 0;
    let n = src.memories.len();
    while i < n
        invariant
            0 <= i <= n == src.memories@.len(),
            base_total + all_memory_tokens(src.memories@, n as int) <= sources_tokens(*src),
            sources_tokens(*src) <= usize::MAX,
            budget == src.max_memory_tokens,
            take_memories(src.memories@, i as int, base_total, budget) == (
                total_tokens as nat,
                memories_text@,
                memory_count as nat,
            ),
        decreases n - i,
    {
        proof {
            lemma_take_memories_bounds(src.memories@, i as int, base_total, budget);
            lemma_all_memory_tokens_mono(src.memories@, i + 1, n as int);
        }
        let m = &src.memories[i];
        let mut entry = to_string("[");
        push_str(&mut entry, m.memory_type.as_str());
        push_str(&mut entry, "] ");
        push_str(&mut entry, m.content.as_str());
        push_str(&mut entry, "\n");
        assert(entry@ =~= entry_text(src.memories@[i as int]));
        let entry_tokens = estimate_tokens(entry.as_str());
        if total_tokens + entry_tokens <= src.max_memory_tokens {
            push_str(&mut memories_text, entry.as_str());
            total_tokens = total_tokens + entry_tokens;
            memory_count = memory_count + 1;
        }
        i += 1;
    }
    proof {
        lemma_take_memories_bounds(src.memories@, n as int, base_total, budget);
    }
    if !memories_text.as_str().is_empty() {
        let tokens = total_tokens - base_tokens;
        push_slot(&mut slots, "memories", memories_text, tokens);
    }
    match &src.conversation_history {
        Some(history) => {
            let tokens = estimate_tokens(history.as_str());
            if total_tokens + tokens <= src.max_memory_tokens {
                push_slot(&mut slots, "conversation_history", history.clone(), tokens);
                total_tokens = total_tokens + tokens;
            }
        },
        None => {},
    }
    AssembledContext { run_id: src.run_id, project_id: src.project_id, slots, total_tokens, memory_count }
}


/// One slot as it appears in the prompt.
pub open spec fn slot_part(s: SlotView) -> Seq<char> {
    "=== "@ + s.0 + " ===\n"@ + s.1
}

/// The prompt: each slot's part, separated by blank lines.
pub open spec fn prompt_text(slots: Seq<SlotView>) -> Seq<char>
    decreases slots.len(),
{
    if slots.len() == 0 {
        seq![]
    } else if slots.len() == 1 {
        slot_part(slots[0])
    } else {
        prompt_text(slots.drop_last()) + "\n\n"@ + slot_part(slots.last())
    }
}

/// The context-builder facade; the database access that feeds it lives with
/// the application.
pub struct ContextBuilder;

impl ContextBuilder {
    /// Format an assembled context as a single prompt string.
    pub fn format_prompt(ctx: &AssembledContext) -> (r: String)
        ensures
            r@ == prompt_text(context_view(*ctx)),
    {
        let mut out = String::new();
        let mut i: usize = 0;
        let ghost view = context_view(*ctx);
        while i < ctx.slots.len()
            invariant
                i <= ctx.slots@.len(),
                view == context_view(*ctx),
                out@ == prompt_text(view.take(i as int)),
            decreases ctx.slots@.len() - i,
        {
            let slot = &ctx.slots[i];
            if i > 0 {
                push_str(&mut out, "\n\n");
            }
            push_str(&mut out, "=== ");
            push_str(&mut out, slot.slot.as_str());
            push_str(&mut out, " ===\n");
            push_str(&mut out, slot.content.as_str());
            proof {
                let t = view.take(i + 1);
                assert(t.drop_last() =~= view.take(i as int));
                assert(t.last() == slot_view(*slot));
                if i == 0 {
                    assert(view.take(0) =~= Seq::<SlotView>::empty());
                }
            }
            assert(out@ =~= prompt_text(view.take(i + 1)));
            i += 1;
        }
        assert(view.take(ctx.slots@.len() as int) =~= view);
        out
    }
}

/// The total token count of an assembled context is the sum of its slots'
/// token estimates.
pub proof fn lemma_total_is_sum_of_slots(src: ContextSources)
    ensures
        assembled(src).1 == slots_tokens(assembled(src).0),
{
    let base = base_slots(src);
    let base_total = slots_tokens(base);
    let budget = src.max_memory_tokens as nat;
    let taken = take_memories(src.memories@, src.memories.len() as int, base_total, budget);
    lemma_take_memories_bounds(src.memories@, src.memories.len() as int, base_total, budget);
    let with_mem = if taken.1.len() > 0 {
        base.push(("memories"@, taken.1, (taken.0 - base_total) as nat))
    } else {
        base
    };
    if taken.1.len() > 0 {
        lemma_slots_tokens_push(base, ("memories"@, taken.1, (taken.0 - base_total) as nat));
    } else {
        lemma_take_memories_empty_text(src.memories@, src.memories.len() as int, base_total, budget);
    }
    match src.conversation_history {
        Some(h) => {
            lemma_slots_tokens_push(with_mem, ("conversation_history"@, h@, est(h@)));
        },
        None => {},
    }
}

proof fn lemma_take_memories_empty_text(mems: Seq<MemoryLine>, n: int, start: nat, budget: nat)
    requires
        0 <= n <= mems.len(),
        take_memories(mems, n, start, budget).1.len() == 0,
    ensures
        take_memories(mems, n, start, budget).0 == start,
        take_memories(mems, n, start, budget).2 == 0,
    decreases n,
{
    if n > 0 {
        let prev = take_memories(mems, n - 1, start, budget);
        let e = entry_text(mems[n - 1]);
        assert(e.len() > 0) by {
            reveal_strlit("[");
        }
        if prev.0 + est(e) <= budget {
            assert((prev.1 + e).len() > 0);
        } else {
            lemma_take_memories_empty_text(mems, n - 1, start, budget);
        }
    }
}

/// Once the always-kept slots fit the budget, the whole context does: memories
/// and history are only added while the running total stays within it.
pub proof fn lemma_context_within_budget(src: ContextSources)
    requires
        slots_tokens(base_slots(src)) <= src.max_memory_tokens,
    ensures
        assembled(src).1 <= src.max_memory_tokens,
        assembled(src).2 <= src.memories@.len(),
{
    let base_total = slots_tokens(base_slots(src));
    lemma_take_memories_bounds(
        src.memories@,
        src.memories.len() as int,
        base_total,
        src.max_memory_tokens as nat,
    );
}

/// A conversation history is added exactly when it fits: compared with the
/// same sources without history, the context gains the history as its last
/// slot, and the total its estimate, when the total so far plus that
/// estimate stays within the budget; otherwise nothing changes.
pub proof fn lemma_history_added_when_it_fits(src: ContextSources, h: String)
    ensures
        ({
            let without = assembled(ContextSources { conversation_history: None, ..src });
            let with = assembled(ContextSources { conversation_history: Some(h), ..src });
            if without.1 + est(h@) <= src.max_memory_tokens {
                &&& with.0 == without.0.push(("conversation_history"@, h@, est(h@)))
                &&& with.1 == without.1 + est(h@)
                &&& with.2 == without.2
            } else {
                with == without
            }
        }),
{
}

} // verus!
