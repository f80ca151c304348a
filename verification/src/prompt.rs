use vstd::prelude::*;
use vstd::string::StringExecFns;
use crate::errors::PipelineError;
use crate::request::{Conversation, ConversationTurn};

verus! {

/// The audio marker that opens every rendered turn.
pub open spec fn audio_mark() -> Seq<char> {
    "<|audio|>"@
}

/// The separator between a turn's voice and its content.
pub open spec fn voice_sep() -> Seq<char> {
    ": "@
}

/// The terminator that closes every completed turn.
pub open spec fn end_of_turn() -> Seq<char> {
    "<|eot_id|>"@
}

/// How one completed turn renders: marker, voice, separator, content,
/// terminator — voice and content verbatim.
pub open spec fn spec_render_turn(t: ConversationTurn) -> Seq<char> {
    audio_mark() + t.voice@ + voice_sep() + t.content@ + end_of_turn()
}

/// How a list of turns renders: each turn in order, concatenated.
pub open spec fn spec_render_turns(turns: Seq<ConversationTurn>) -> Seq<char>
    decreases turns.len(),
{
    if turns.len() == 0 {
        Seq::<char>::empty()
    } else {
        spec_render_turns(turns.drop_last()) + spec_render_turn(turns.last())
    }
}

/// The open-ended trailing segment that asks the backend to continue from the
/// last turn's voice: marker, voice, separator, and no terminator.
pub open spec fn spec_continuation(turns: Seq<ConversationTurn>) -> Seq<char>
    recommends
        turns.len() > 0,
{
    audio_mark() + turns.last().voice@ + voice_sep()
}

/// The full prompt for a conversation: every turn rendered in order, followed
/// by the continuation segment when generation is requested.
pub open spec fn spec_render_conversation(turns: Seq<ConversationTurn>, continuation: bool) -> Seq<
    char,
> {
    if continuation {
        spec_render_turns(turns) + spec_continuation(turns)
    } else {
        spec_render_turns(turns)
    }
}

/// Appending one turn to a list appends its rendering to the list's.
pub proof fn lemma_render_turns_push(turns: Seq<ConversationTurn>, t: ConversationTurn)
    ensures
        spec_render_turns(turns.push(t)) == spec_render_turns(turns) + spec_render_turn(t),
{
    assert(turns.push(t).drop_last() =~= turns);
    assert(turns.push(t).last() == t);
}

/// Renders a conversation into the exact textual prompt the backend expects.
/// Fails with `EmptyConversation` on zero turns and succeeds otherwise; on
/// success the prompt is character-for-character the rendering of the turns,
/// with the continuation segment appended when `continuation` is set.
pub fn format_prompt(c: &Conversation, continuation: bool) -> (r: Result<String, PipelineError>)
    ensures
        r is Ok <==> c.turns@.len() > 0,
        r is Err ==> r->Err_0 == PipelineError::EmptyConversation,
        r is Ok ==> r->Ok_0@ == spec_render_conversation(c.turns@, continuation),
{
    if c.turns.len() == 0 {
        return Err(PipelineError::EmptyConversation);
    }
    let mut out: String = String::new();
    let n: usize = c.turns.len();
    let mut i: usize = 0;
    while i < n
        invariant
            n == c.turns@.len(),
            0 <= i <= n,
            out@ == spec_render_turns(c.turns@.take(i as int)),
        decreases n - i,
    {
        let turn = &c.turns[i];
        out.append("<|audio|>");
        out.append(turn.voice.as_str());
        out.append(": ");
        out.append(turn.content.as_str());
        out.append("<|eot_id|>");
        proof {
            assert(c.turns@.take(i + 1) =~= c.turns@.take(i as int).push(c.turns@[i as int]));
            lemma_render_turns_push(c.turns@.take(i as int), c.turns@[i as int]);
            assert(out@ =~= spec_render_turns(c.turns@.take(i + 1)));
        }
        i = i + 1;
    }
    proof {
        assert(c.turns@.take(n as int) =~= c.turns@);
    }
    if continuation {
        let last = &c.turns[n - 1];
        out.append("<|audio|>");
        out.append(last.voice.as_str());
        out.append(": ");
        proof {
            assert(c.turns@[n - 1] == c.turns@.last());
            assert(out@ =~= spec_render_conversation(c.turns@, true));
        }
    }
    Ok(out)
}

/// Formatting is a pure function of the turns' texts: two conversations whose
/// turns carry the same voices and the same contents render to identical
/// prompts, so formatting the same conversation twice yields byte-identical
/// output.
pub proof fn lemma_format_deterministic(
    a: Seq<ConversationTurn>,
    b: Seq<ConversationTurn>,
    continuation: bool,
)
    requires
        a.len() == b.len(),
        forall|i: int|
            0 <= i < a.len() ==> a[i].voice@ == b[i].voice@ && a[i].content@ == b[i].content@,
    ensures
        spec_render_conversation(a, continuation) == spec_render_conversation(b, continuation),
    decreases a.len(),
{
    if a.len() == 0 {
        assert(a =~= b);
    } else {
        assert(forall|i: int|
            0 <= i < a.drop_last().len() ==> a.drop_last()[i].voice@ == b.drop_last()[i].voice@
                && a.drop_last()[i].content@ == b.drop_last()[i].content@);
        lemma_format_deterministic(a.drop_last(), b.drop_last(), false);
        assert(a.last().voice@ == b.last().voice@ && a.last().content@ == b.last().content@);
        assert(spec_render_turn(a.last()) == spec_render_turn(b.last()));
        if continuation {
            assert(spec_continuation(a) == spec_continuation(b));
        }
    }
}

/// The prompt built for a single-turn conversation carries the voice and the
/// content verbatim, at fixed offsets, and when continuation is requested it
/// ends with the continuation segment for that voice.
pub proof fn lemma_prompt_verbatim(t: ConversationTurn)
    ensures
        ({
            let p = spec_render_conversation(seq![t], true);
            let m = audio_mark().len() as int;
            let v = t.voice@.len() as int;
            let s = voice_sep().len() as int;
            let c = t.content@.len() as int;
            &&& p.len() == 2 * m + 2 * v + 2 * s + c + end_of_turn().len()
            &&& p.subrange(m, m + v) == t.voice@
            &&& p.subrange(m + v + s, m + v + s + c) == t.content@
            &&& p.subrange(p.len() - (m + v + s), p.len() as int) == spec_continuation(seq![t])
        }),
{
    let p = spec_render_conversation(seq![t], true);
    assert(seq![t].drop_last() =~= Seq::<ConversationTurn>::empty());
    assert(spec_render_turns(seq![t].drop_last()) =~= Seq::<char>::empty());
    assert(spec_render_turns(seq![t]) =~= spec_render_turn(t));
    assert(p =~= spec_render_turn(t) + spec_continuation(seq![t]));
    let m = audio_mark().len() as int;
    let v = t.voice@.len() as int;
    let s = voice_sep().len() as int;
    let c = t.content@.len() as int;
    assert(p.subrange(m, m + v) =~= t.voice@);
    assert(p.subrange(m + v + s, m + v + s + c) =~= t.content@);
    assert(p.subrange(p.len() - (m + v + s), p.len() as int) =~= spec_continuation(seq![t]));
}

} // verus!
