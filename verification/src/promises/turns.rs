//! A turn from its input to its outcome: what it spends, how the conversation grows, and when it is
//! over.
use vstd::prelude::*;

use crate::agent::modes;
use crate::agent::modes::{current_mode, restrict_write_to, ModeDef, ModeId};
use crate::agent::run;
use crate::agent::run::{
    estimate_message_tokens, filter_tools, request_tools, resolve_compaction_model, tool_cwd,
    Afterwards, Agent, AgentModel, Entry, RunConfig, RunEnd, RunError, RunStep, StopReason,
    StreamResponse,
};
use crate::agent::streaming::{ProviderFailure, StreamError};
use crate::json;
use crate::promises::messages;
use crate::text;
use crate::types::{
    AgentId, AgentInput, AgentMode, DoneReason, Message, MessageBlock, Role, TokenUsage,
    TurnCancellationReason, TurnId, TurnOutcome,
};

verus! {

/// The smaller of a sum and the largest count.
pub open spec fn at_most(sum: int) -> int {
    if sum > u32::MAX {
        u32::MAX as int
    } else {
        sum
    }
}

/// A usage is another with some tokens more, count by count.
pub open spec fn grows_by(before: TokenUsage, spent: TokenUsage, after: TokenUsage) -> bool {
    &&& after.input == at_most(before.input + spent.input)
    &&& after.output == at_most(before.output + spent.output)
    &&& after.cache_creation == at_most(before.cache_creation + spent.cache_creation)
    &&& after.cache_read == at_most(before.cache_read + spent.cache_read)
}

/// Everything but the conversation is as it was.
pub open spec fn only_history_differs(before: AgentModel, after: AgentModel) -> bool {
    &&& after.agent_id == before.agent_id
    &&& after.config == before.config
    &&& after.mode == before.mode
    &&& after.thinking == before.thinking
    &&& after.fast == before.fast
    &&& after.workflow == before.workflow
    &&& after.total_usage == before.total_usage
    &&& after.context_size == before.context_size
    &&& after.num_turns == before.num_turns
    &&& after.reauth_attempts == before.reauth_attempts
    &&& after.rollback_len == before.rollback_len
    &&& after.after == before.after
}

/// Who the agent is and how it works is as it was.
pub open spec fn same_agent(before: AgentModel, after: AgentModel) -> bool {
    &&& after.agent_id == before.agent_id
    &&& after.config == before.config
    &&& after.mode == before.mode
    &&& after.thinking == before.thinking
    &&& after.fast == before.fast
    &&& after.workflow == before.workflow
    &&& after.rollback_len == before.rollback_len
}

/// What is seen of an agent is what it holds.
pub proof fn law_an_agent_is_seen_as_it_is(agent: Agent)
    ensures
        agent@.agent_id == agent.agent_id,
        agent@.config == agent.config,
        agent@.mode == agent.mode,
        agent@.thinking == agent.thinking,
        agent@.fast == agent.fast,
        agent@.workflow == agent.workflow,
        agent@.total_usage == agent.total_usage,
        agent@.context_size == agent.context_size,
        agent@.num_turns == agent.num_turns,
        agent@.reauth_attempts == agent.reauth_attempts,
        agent@.rollback_len == agent.rollback_len,
        agent@.history == agent.history@,
        agent@.after == agent.after,
{
}

/// An agent before its first turn has spent nothing and said nothing.
pub proof fn law_new_agents_have_spent_nothing(
    agent_id: AgentId,
    config: RunConfig,
    history: Vec<Entry>,
    agent: Agent,
)
    requires
        call_ensures(Agent::new, (agent_id, config, history), agent),
    ensures
        agent.agent_id == agent_id,
        agent.config == config,
        agent.history@ == history@,
        agent.total_usage.input == 0 && agent.total_usage.output == 0,
        agent.total_usage.cache_creation == 0 && agent.total_usage.cache_read == 0,
        agent.num_turns == 0,
        agent.context_size == 0,
        agent.reauth_attempts == 0,
        agent.rollback_len == 0,
        agent.mode is Build,
        agent.thinking is Off,
        !agent.fast,
        !agent.workflow,
        agent.after is Continue,
{
}

/// Every reply that was reported counts, whether it calls tools or not and whatever it says: each
/// of its four token counts is added to what the turn has spent.
pub proof fn law_every_delivered_reply_counts(
    agent: &mut Agent,
    response: StreamResponse,
    nudges: u32,
    had_tools: bool,
    step: RunStep,
)
    requires
        old(agent).num_turns < u32::MAX,
        call_ensures(Agent::responded, (agent, response, true, nudges, had_tools), step),
    ensures
        grows_by(old(agent).total_usage, response.usage, final(agent).total_usage),
        final(agent).num_turns == old(agent).num_turns + 1,
        final(agent).reauth_attempts == 0,
        final(agent).context_size == at_most(
            response.usage.input + response.usage.cache_creation + response.usage.cache_read,
        ),
        same_agent(old(agent)@, final(agent)@),
{
}

/// A reply that could not be reported is not counted as spent, and the turn is over.
pub proof fn law_undelivered_replies_end_the_turn(
    agent: &mut Agent,
    response: StreamResponse,
    nudges: u32,
    had_tools: bool,
    step: RunStep,
)
    requires
        old(agent).num_turns < u32::MAX,
        call_ensures(Agent::responded, (agent, response, false, nudges, had_tools), step),
    ensures
        step == RunStep::Finished(Err(RunError::Undelivered)),
        final(agent).total_usage == old(agent).total_usage,
        final(agent).context_size == old(agent).context_size,
        final(agent).history@ == old(agent).history@,
        final(agent).num_turns == old(agent).num_turns + 1,
        final(agent).reauth_attempts == 0,
        final(agent).after == old(agent).after,
        same_agent(old(agent)@, final(agent)@),
{
}

/// A message holds a piece of a kind.
pub open spec fn calls_tools(message: Message) -> bool {
    exists|i: int| 0 <= i < message.content@.len() && #[trigger] message.content@[i] is ToolUse
}

/// A message holds a text.
pub open spec fn has_text(message: Message) -> bool {
    exists|i: int| 0 <= i < message.content@.len() && #[trigger] message.content@[i] is Text
}

/// What follows a reply: its tools are run where it calls some; otherwise it becomes part of the
/// conversation, a model that stalls behind its tools is nudged a limited number of times, one that
/// was cut off may go on a limited number of times, and else the turn comes to its end.
pub proof fn law_replies_are_followed_up(
    agent: &mut Agent,
    response: StreamResponse,
    nudges: u32,
    had_tools: bool,
    step: RunStep,
)
    requires
        old(agent).num_turns < u32::MAX,
        call_ensures(Agent::responded, (agent, response, true, nudges, had_tools), step),
    ensures
        calls_tools(response.message) ==> {
            &&& step == RunStep::RunTools(response.message)
            &&& final(agent).after == Afterwards::Continue
            &&& final(agent).history@ == old(agent).history@
        },
        !calls_tools(response.message) ==> {
            let cut_off = response.stop_reason == Some(StopReason::MaxTokens);
            let stalls = !has_text(response.message) && had_tools && nudges < 20;
            &&& final(agent).after == (if cut_off {
                Afterwards::Done(DoneReason::MaxTokens)
            } else {
                Afterwards::Done(DoneReason::EndTurn)
            })
            &&& final(agent).history@.len() == old(agent).history@.len() + 1
            &&& final(agent).history@.drop_last() == old(agent).history@
            &&& has_text(response.message) ==> final(agent).history@.last() == Entry::Message(
                response.message,
            )
            &&& !has_text(response.message) ==> final(agent).history@.last() is EmptyMarker
            &&& stalls ==> step == RunStep::ReportNudge
            &&& !stalls && cut_off && final(agent).num_turns
                <= old(agent).config.max_continuation_turns ==> step == RunStep::Again
            &&& !stalls && !(cut_off && final(agent).num_turns
                <= old(agent).config.max_continuation_turns) ==> step == RunStep::CheckCompaction
        },
{
    messages::lemma_text_from(response.message.content@, 0);
    assert(final(agent).history@ == final(agent)@.history);
    if !calls_tools(response.message) {
        assert(final(agent).history@.drop_last() =~= old(agent).history@);
    }
}

/// A compaction counts as spent like a reply, and what it leaves is the conversation, of which
/// nothing is taken back any more.
pub proof fn law_compactions_count(
    agent: &mut Agent,
    history: Vec<Entry>,
    usage: TokenUsage,
    step: RunStep,
)
    requires
        call_ensures(Agent::compacted, (agent, history, usage), step),
    ensures
        step == RunStep::ReportCompacted,
        grows_by(old(agent).total_usage, usage, final(agent).total_usage),
        final(agent).history@ == history@,
        final(agent).rollback_len == history@.len(),
        final(agent).num_turns == old(agent).num_turns,
        final(agent).context_size == old(agent).context_size,
        final(agent).after == old(agent).after,
        final(agent).mode == old(agent).mode,
        final(agent).agent_id == old(agent).agent_id,
        final(agent).config == old(agent).config,
        final(agent).reauth_attempts == old(agent).reauth_attempts,
{
    assert(final(agent)@.history == final(agent).history@);
    assert(final(agent)@.total_usage == final(agent).total_usage);
}

/// The sum of one count of the usages.
pub open spec fn sum_of(spent: Seq<TokenUsage>, count: spec_fn(TokenUsage) -> u32) -> int
    decreases spent.len(),
{
    if spent.len() == 0 {
        0
    } else {
        sum_of(spent.drop_last(), count) + count(spent.last())
    }
}

/// A sum of counts is not negative.
proof fn lemma_sum_grows(spent: Seq<TokenUsage>, count: spec_fn(TokenUsage) -> u32)
    ensures
        sum_of(spent, count) >= 0,
    decreases spent.len(),
{
    if spent.len() > 0 {
        lemma_sum_grows(spent.drop_last(), count);
    }
}

/// What a turn has spent after any number of replies and compactions is the sum of what each of
/// them spent, count by count, as far as the counts reach.
pub proof fn law_a_turn_spends_what_its_parts_spend(
    totals: Seq<TokenUsage>,
    spent: Seq<TokenUsage>,
)
    requires
        totals.len() == spent.len() + 1,
        totals[0].input == 0 && totals[0].output == 0,
        totals[0].cache_creation == 0 && totals[0].cache_read == 0,
        forall|k: int|
            0 <= k < spent.len() ==> grows_by(
                #[trigger] totals[k],
                spent[k],
                totals[k + 1],
            ),
    ensures
        totals.last().input == at_most(sum_of(spent, |usage: TokenUsage| usage.input)),
        totals.last().output == at_most(sum_of(spent, |usage: TokenUsage| usage.output)),
        totals.last().cache_creation == at_most(
            sum_of(spent, |usage: TokenUsage| usage.cache_creation),
        ),
        totals.last().cache_read == at_most(sum_of(spent, |usage: TokenUsage| usage.cache_read)),
    decreases spent.len(),
{
    if spent.len() > 0 {
        let fewer = spent.drop_last();
        let before = totals.drop_last();
        assert forall|k: int| 0 <= k < fewer.len() implies grows_by(
            #[trigger] before[k],
            fewer[k],
            before[k + 1],
        ) by {
            assert(grows_by(totals[k], spent[k], totals[k + 1]));
        }
        law_a_turn_spends_what_its_parts_spend(before, fewer);
        let last = spent.len() - 1;
        assert(grows_by(totals[last], spent[last], totals[last + 1]));
        lemma_sum_grows(fewer, |usage: TokenUsage| usage.input);
        lemma_sum_grows(fewer, |usage: TokenUsage| usage.output);
        lemma_sum_grows(fewer, |usage: TokenUsage| usage.cache_creation);
        lemma_sum_grows(fewer, |usage: TokenUsage| usage.cache_read);
    }
}

/// The outcome of a turn says how it ended, whose it is and what it has spent.
pub proof fn law_outcomes_say_what_was_spent(
    agent: Agent,
    turn_id: TurnId,
    end: RunEnd,
    outcome: TurnOutcome,
)
    requires
        call_ensures(Agent::outcome, (&agent, turn_id, end), outcome),
    ensures
        match end {
            RunEnd::Completed(why) => outcome matches TurnOutcome::Completed {
                agent_id,
                turn_id: turn,
                usage,
                num_turns,
                reason,
            } && agent_id == agent.agent_id && turn == turn_id && usage == agent.total_usage
                && num_turns == agent.num_turns && reason == why,
            RunEnd::Cancelled => outcome matches TurnOutcome::Cancelled {
                agent_id,
                turn_id: turn,
                usage,
                num_turns,
                reason,
            } && agent_id == agent.agent_id && turn == turn_id && usage == agent.total_usage
                && num_turns == agent.num_turns && reason == TurnCancellationReason::User,
            RunEnd::Failed(why) => outcome matches TurnOutcome::Failed {
                agent_id,
                turn_id: turn,
                usage,
                num_turns,
                failure,
            } && agent_id == agent.agent_id && turn == turn_id && usage == agent.total_usage
                && num_turns == agent.num_turns && failure == why,
        },
{
}

/// A text is more than white space.
pub open spec fn has_substance(text: Seq<char>) -> bool {
    exists|i: int| 0 <= i < text.len() && !text::white_space(#[trigger] text[i])
}

/// A text without white space at its end is empty exactly where it is nothing but white space.
pub proof fn lemma_trimmed_end(text: Seq<char>)
    ensures
        text::trimmed_end(text).len() > 0 <==> has_substance(text),
        text::trimmed_end(text).is_prefix_of(text),
        text::trimmed_end(text).len() > 0 ==> !text::white_space(text::trimmed_end(text).last()),
        forall|i: int|
            text::trimmed_end(text).len() <= i < text.len() ==> text::white_space(
                #[trigger] text[i],
            ),
    decreases text.len(),
{
    if text.len() > 0 && text::white_space(text.last()) {
        let shorter = text.drop_last();
        lemma_trimmed_end(shorter);
        if has_substance(shorter) {
            let i = choose|i: int| 0 <= i < shorter.len() && !text::white_space(#[trigger] shorter[i]);
            assert(!text::white_space(text[i]));
        }
        if has_substance(text) {
            let i = choose|i: int| 0 <= i < text.len() && !text::white_space(#[trigger] text[i]);
            assert(!text::white_space(shorter[i]));
        }
        assert forall|i: int|
            text::trimmed_end(text).len() <= i < text.len() implies text::white_space(
            #[trigger] text[i],
        ) by {
            if i < shorter.len() {
                assert(text::white_space(shorter[i]));
            }
        }
    } else if text.len() > 0 {
        assert(!text::white_space(text[text.len() - 1]));
    }
}

/// A text without white space at its beginning is a rest of it, and what is left out is white
/// space.
pub proof fn lemma_trimmed_start(text: Seq<char>)
    ensures
        text::trimmed_start(text).len() > 0 <==> has_substance(text),
        text::trimmed_start(text).len() <= text.len(),
        text::trimmed_start(text) == text.skip(text.len() - text::trimmed_start(text).len()),
        text::trimmed_start(text).len() > 0 ==> !text::white_space(text::trimmed_start(text)[0]),
        forall|i: int|
            0 <= i < text.len() - text::trimmed_start(text).len() ==> text::white_space(
                #[trigger] text[i],
            ),
    decreases text.len(),
{
    if text.len() > 0 && text::white_space(text[0]) {
        let shorter = text.skip(1);
        let rest = text::trimmed_start(text);
        lemma_trimmed_start(shorter);
        if has_substance(shorter) {
            let i = choose|i: int| 0 <= i < shorter.len() && !text::white_space(#[trigger] shorter[i]);
            assert(!text::white_space(text[i + 1]));
        }
        if has_substance(text) {
            let i = choose|i: int| 0 <= i < text.len() && !text::white_space(#[trigger] text[i]);
            assert(!text::white_space(shorter[i - 1]));
        }
        assert(rest =~= text.skip(text.len() - rest.len()));
        assert forall|i: int| 0 <= i < text.len() - rest.len() implies text::white_space(
            #[trigger] text[i],
        ) by {
            if i > 0 {
                assert(text::white_space(shorter[i - 1]));
            }
        }
    } else if text.len() > 0 {
        assert(!text::white_space(text[0]));
        assert(text.skip(0) =~= text);
    } else {
        assert(text.skip(0) =~= text);
    }
}

/// A text without the white space around it is empty exactly where it is nothing but white space.
pub proof fn lemma_trimmed(text: Seq<char>)
    ensures
        text::trimmed(text).len() > 0 <==> has_substance(text),
{
    lemma_trimmed_start(text);
    let rest = text::trimmed_start(text);
    lemma_trimmed_end(rest);
    if rest.len() > 0 {
        assert(!text::white_space(rest[0]));
    }
}

/// The conversation goes on with messages: first those that belong to the input, then those from
/// the mailbox.
pub open spec fn with_context(
    before: Seq<Entry>,
    preamble: Seq<Message>,
    mailbox: Seq<Message>,
    after: Seq<Entry>,
) -> bool {
    &&& after.len() >= before.len() + preamble.len() + mailbox.len()
    &&& forall|i: int| 0 <= i < before.len() ==> #[trigger] after[i] == before[i]
    &&& forall|i: int|
        0 <= i < preamble.len() ==> #[trigger] after[before.len() + i] == Entry::Message(
            preamble[i],
        )
    &&& forall|i: int|
        0 <= i < mailbox.len() ==> #[trigger] after[before.len() + preamble.len() + i]
            == Entry::Message(mailbox[i])
}

/// A turn begins with an input: the conversation goes on with what belongs to it and with what the
/// user says, where they say something. Nothing has been spent, and all that is added can be taken
/// back. The agent works as the input says.
pub proof fn law_a_turn_begins_with_its_input(
    agent: &mut Agent,
    input: AgentInput,
    mailbox: Vec<Message>,
    step: RunStep,
)
    requires
        call_ensures(Agent::begin, (agent, input, mailbox), step),
    ensures
        ({
            let before = old(agent).history@;
            let after = final(agent).history@;
            let context = before.len() + input.preamble@.len() + mailbox@.len();
            let speaks = has_substance(input.message@) || input.images@.len() > 0;
            &&& step == RunStep::Again
            &&& with_context(before, input.preamble@, mailbox@, after)
            &&& speaks ==> after.len() == context + 1 && (after.last() matches Entry::Message(said)
                && messages::says(said, input.message@, input.images@))
            &&& !speaks ==> after.len() == context
            &&& final(agent).mode == input.mode
            &&& final(agent).thinking == input.thinking
            &&& final(agent).fast == input.fast
            &&& final(agent).workflow == input.workflow
            &&& final(agent).total_usage.input == 0 && final(agent).total_usage.output == 0
            &&& final(agent).total_usage.cache_creation == 0
            &&& final(agent).total_usage.cache_read == 0
            &&& final(agent).num_turns == 0
            &&& final(agent).reauth_attempts == 0
            &&& final(agent).rollback_len == before.len()
            &&& final(agent).agent_id == old(agent).agent_id
            &&& final(agent).config == old(agent).config
            &&& final(agent).context_size == old(agent).context_size
            &&& final(agent).after == old(agent).after
        }),
{
    lemma_trimmed(input.message@);
    let before = old(agent)@.history;
    let after = final(agent)@.history;
    let context = before + run::as_entries(input.preamble@) + run::as_entries(mailbox@);
    assert(old(agent).history@ == before);
    assert(final(agent).history@ == after);
    assert(final(agent)@.total_usage == final(agent).total_usage);
    assert(final(agent)@.rollback_len == final(agent).rollback_len);
    if run::says_something(input) {
        assert forall|i: int| 0 <= i < context.len() implies after[i] == context[i] by {
            assert(after.drop_last()[i] == after[i]);
        }
    }
}

/// What the user says while the agent works reaches the model marked as such, and is shown as it
/// was said; what belongs to the input comes before it. Only the mode changes besides.
pub proof fn law_interruptions_reach_the_model(
    agent: &mut Agent,
    input: AgentInput,
    mailbox: Vec<Message>,
    delivered: bool,
    step: RunStep,
)
    requires
        call_ensures(Agent::interrupted, (agent, input, mailbox, delivered), step),
    ensures
        !delivered ==> step == RunStep::Finished(Err(RunError::Undelivered)) && final(agent)@
            == old(agent)@,
        delivered ==> {
            let before = old(agent).history@;
            let after = final(agent).history@;
            &&& step == RunStep::Again
            &&& with_context(before, input.preamble@, mailbox@, after)
            &&& after.len() == before.len() + input.preamble@.len() + mailbox@.len() + 1
            &&& after.last() matches Entry::Interrupt { text, display } && {
                &&& display@ == input.message@
                &&& text@
                    == "<user-interrupt>\nThe user sent a new message while you were working. Address it and continue.\n\n"@
                    + input.message@ + "\n</user-interrupt>"@
            }
            &&& final(agent).mode == input.mode
            &&& only_history_differs(
                AgentModel { mode: input.mode, ..old(agent)@ },
                final(agent)@,
            )
        },
{
    if delivered {
        let before = old(agent)@.history;
        let after = final(agent)@.history;
        let context = before + run::as_entries(input.preamble@) + run::as_entries(mailbox@);
        assert(old(agent).history@ == before);
        assert(final(agent).history@ == after);
        assert forall|i: int| 0 <= i < context.len() implies after[i] == context[i] by {
            assert(after.drop_last()[i] == after[i]);
        }
        assert(after.last() == after[context.len() as int]);
    }
}

/// Messages go behind the conversation in order.
pub proof fn law_context_goes_behind(
    agent: &mut Agent,
    preamble: Vec<Message>,
    mailbox: Vec<Message>,
)
    requires
        call_ensures(Agent::push_input_context, (agent, preamble, mailbox), ()),
    ensures
        with_context(old(agent)@.history, preamble@, mailbox@, final(agent)@.history),
        final(agent)@.history.len() == old(agent)@.history.len() + preamble@.len()
            + mailbox@.len(),
        only_history_differs(old(agent)@, final(agent)@),
{
}

/// The model is asked again exactly where the turn has requests left and has not been cancelled. A
/// turn that has none left is over even where it has been cancelled.
pub proof fn law_requests_are_limited(agent: Agent, cancelled: bool, step: RunStep)
    requires
        call_ensures(Agent::next_request, (&agent, cancelled), step),
    ensures
        ({
            let used_up = agent.config.max_turns matches Some(max) && agent.num_turns >= max;
            &&& used_up ==> step == RunStep::Finished(Ok(DoneReason::MaxTurns))
            &&& !used_up && cancelled ==> step == RunStep::Finished(Err(RunError::Cancelled))
            &&& !used_up && !cancelled ==> step == RunStep::Stream
        }),
{
}

/// A reply that was cut off by a cancellation is kept as far as it came, with a note, and the turn
/// is over. Nothing is kept where nothing but white space came.
pub proof fn law_cut_off_replies_are_kept(
    agent: &mut Agent,
    streamed: String,
    can_ask: bool,
    step: RunStep,
)
    requires
        call_ensures(
            Agent::stream_failed,
            (agent, StreamError::Cancelled { streamed }, can_ask),
            step,
        ),
    ensures
        step == RunStep::Finished(Err(RunError::Cancelled)),
        only_history_differs(old(agent)@, final(agent)@),
        !has_substance(streamed@) ==> final(agent)@.history == old(agent)@.history,
        has_substance(streamed@) ==> {
            &&& final(agent)@.history.len() == old(agent)@.history.len() + 1
            &&& final(agent)@.history.drop_last() == old(agent)@.history
            &&& final(agent)@.history.last() matches Entry::Message(kept) && {
                &&& kept.role == Role::Assistant
                &&& kept.display_text is None
                &&& kept.content@.len() == 1
                &&& kept.content@[0] matches MessageBlock::Text { text } && exists|came: int|
                    {
                        &&& 0 < came <= streamed@.len()
                        &&& !text::white_space(streamed@[came - 1])
                        &&& text@ == #[trigger] streamed@.take(came) + "\n\n"@
                            + "[Response cut off by user cancel]"@
                        &&& forall|i: int|
                            came <= i < streamed@.len() ==> text::white_space(
                                #[trigger] streamed@[i],
                            )
                    }
            }
        },
{
    lemma_trimmed_end(streamed@);
    let kept = text::trimmed_end(streamed@);
    assert(streamed@.take(kept.len() as int) =~= kept);
}

/// A request that failed ends the turn with the failure, unless authentication failed, the user can
/// be asked and has been asked fewer than two times in a row: then they are asked.
pub proof fn law_authentication_is_asked_for_twice(
    agent: &mut Agent,
    failure: ProviderFailure,
    can_ask: bool,
    step: RunStep,
)
    requires
        call_ensures(Agent::stream_failed, (agent, StreamError::Other(failure), can_ask), step),
    ensures
        final(agent)@.history == old(agent)@.history,
        ({
            let asks = failure.is_auth && can_ask && old(agent).reauth_attempts < 2;
            &&& asks ==> {
                &&& step == RunStep::ReportAuth
                &&& final(agent).reauth_attempts == old(agent).reauth_attempts + 1
                &&& only_history_differs(
                    AgentModel {
                        reauth_attempts: final(agent)@.reauth_attempts,
                        ..old(agent)@
                    },
                    final(agent)@,
                )
            }
            &&& !asks ==> {
                &&& step == RunStep::Finished(Err(RunError::Provider(failure)))
                &&& final(agent)@ == old(agent)@
            }
        }),
{
    assert(final(agent)@.reauth_attempts == final(agent).reauth_attempts);
}

/// Where something could not be reported the turn is over; otherwise each step leads to the next.
pub proof fn law_steps_follow_one_another(
    agent: Agent,
    delivered: bool,
    auth: RunStep,
    answered: bool,
    refreshed: Result<(), ProviderFailure>,
    awaited: RunStep,
    overflow: bool,
    checked: RunStep,
    compacting: RunStep,
    empty: RunStep,
)
    requires
        call_ensures(Agent::auth_reported, (&agent, delivered), auth),
        call_ensures(Agent::auth_awaited, (&agent, answered, refreshed), awaited),
        call_ensures(Agent::try_auto_compact, (&agent, overflow), checked),
        call_ensures(Agent::compacting_reported, (&agent, delivered), compacting),
        call_ensures(Agent::queue_empty, (&agent,), empty),
    ensures
        delivered ==> auth == RunStep::AwaitAuth && compacting == RunStep::Compact,
        !delivered ==> auth == RunStep::Finished(Err(RunError::Undelivered)) && compacting
            == RunStep::Finished(Err(RunError::Undelivered)),
        !answered ==> awaited == RunStep::Finished(Err(RunError::Cancelled)),
        answered && refreshed is Ok ==> awaited == RunStep::Again,
        answered && refreshed is Err ==> awaited == RunStep::Finished(
            Err(RunError::Provider(refreshed->Err_0)),
        ),
        overflow && agent.config.auto_compact <==> checked == RunStep::ReportCompacting,
        !(overflow && agent.config.auto_compact) <==> checked == RunStep::PollQueue,
        agent.after is Continue ==> empty == RunStep::Again,
        agent.after matches Afterwards::Done(reason) ==> empty == RunStep::Finished(Ok(reason)),
{
}

/// A model that is nudged reads why, once that has been reported.
pub proof fn law_nudges_are_said(agent: &mut Agent, delivered: bool, step: RunStep)
    requires
        call_ensures(Agent::nudged, (agent, delivered), step),
    ensures
        !delivered ==> step == RunStep::Finished(Err(RunError::Undelivered)) && final(agent)@
            == old(agent)@,
        delivered ==> {
            &&& step == RunStep::Again
            &&& only_history_differs(old(agent)@, final(agent)@)
            &&& final(agent)@.history.len() == old(agent)@.history.len() + 1
            &&& final(agent)@.history.drop_last() == old(agent)@.history
            &&& final(agent)@.history.last() matches Entry::Synthetic(text) && text@
                == "You just executed tool calls but returned an empty response. Please process the tool results above and continue with the task."@
        },
{
}

/// The conversation goes on after a compaction with the message for that, once it has been
/// reported.
pub proof fn law_compacted_conversations_go_on(
    agent: &mut Agent,
    delivered: bool,
    continue_message: String,
    step: RunStep,
)
    requires
        call_ensures(Agent::compaction_reported, (agent, delivered, continue_message), step),
    ensures
        !delivered ==> step == RunStep::Finished(Err(RunError::Undelivered)) && final(agent)@
            == old(agent)@,
        delivered ==> {
            &&& step == RunStep::Again
            &&& only_history_differs(old(agent)@, final(agent)@)
            &&& final(agent)@.history == old(agent)@.history.push(
                Entry::Synthetic(continue_message),
            )
        },
{
}

/// How many bytes the texts of a message's first pieces hold. An image counts nothing.
pub open spec fn bytes_of_pieces(content: Seq<MessageBlock>, count: int) -> int
    decreases count,
{
    if count <= 0 {
        0
    } else {
        bytes_of_pieces(content, count - 1) + match content[count - 1] {
            MessageBlock::Text { text } => vstd::utf8::encode_utf8(text@).len() as int,
            MessageBlock::ToolResult { content, .. } => vstd::utf8::encode_utf8(
                content@,
            ).len() as int,
            MessageBlock::ToolUse { input, .. } => vstd::utf8::encode_utf8(input@).len() as int,
            MessageBlock::Thinking { thinking } => vstd::utf8::encode_utf8(
                thinking@,
            ).len() as int,
            MessageBlock::Image { .. } => 0,
        }
    }
}

/// How many bytes the texts of the first messages hold.
pub open spec fn bytes_of(said: Seq<Message>, count: int) -> int
    decreases count,
{
    if count <= 0 {
        0
    } else {
        bytes_of(said, count - 1) + bytes_of_pieces(
            said[count - 1].content@,
            said[count - 1].content@.len() as int,
        )
    }
}

/// The bytes of a message's first pieces.
proof fn lemma_bytes_of_pieces(content: Seq<MessageBlock>, count: int)
    requires
        0 <= count <= content.len(),
    ensures
        run::block_bytes(content.take(count)) == bytes_of_pieces(content, count),
    decreases count,
{
    if count > 0 {
        lemma_bytes_of_pieces(content, count - 1);
        assert(content.take(count).drop_last() =~= content.take(count - 1));
    }
}

/// The bytes of the first messages.
proof fn lemma_bytes_of(said: Seq<Message>, count: int)
    requires
        0 <= count <= said.len(),
    ensures
        run::message_bytes(said.take(count)) == bytes_of(said, count),
    decreases count,
{
    if count > 0 {
        lemma_bytes_of(said, count - 1);
        assert(said.take(count).drop_last() =~= said.take(count - 1));
        let content = said[count - 1].content@;
        lemma_bytes_of_pieces(content, content.len() as int);
        assert(content.take(content.len() as int) =~= content);
    }
}

/// Messages are taken for a token for every four bytes of their texts, and for one at least where
/// there is a message.
pub proof fn law_four_bytes_are_a_token(said: Vec<Message>, tokens: u32)
    requires
        call_ensures(estimate_message_tokens, (&said,), tokens),
    ensures
        ({
            let bytes = bytes_of(said@, said@.len() as int);
            &&& said@.len() == 0 ==> tokens == 0
            &&& said@.len() > 0 && bytes < 8 ==> tokens == 1
            &&& said@.len() > 0 && 4 <= bytes <= 4 * u32::MAX ==> tokens == bytes / 4
        }),
{
    lemma_bytes_of(said@, said@.len() as int);
    assert(said@.take(said@.len() as int) =~= said@);
}

/// The messages that running tools adds go behind the conversation, and count for its size.
pub proof fn law_tool_messages_go_behind(
    agent: &mut Agent,
    added: Vec<Message>,
    step: RunStep,
    tokens: u32,
)
    requires
        call_ensures(Agent::tools_done, (agent, added), step),
        call_ensures(estimate_message_tokens, (&added,), tokens),
        old(agent).context_size + tokens <= u32::MAX,
    ensures
        step == RunStep::CheckCompaction,
        with_context(old(agent)@.history, added@, Seq::empty(), final(agent)@.history),
        final(agent)@.history.len() == old(agent)@.history.len() + added@.len(),
        final(agent).context_size == old(agent).context_size + tokens,
        final(agent).total_usage == old(agent).total_usage,
        final(agent).num_turns == old(agent).num_turns,
        final(agent).after == old(agent).after,
        same_agent(old(agent)@, final(agent)@),
{
    assert(final(agent)@.context_size == final(agent).context_size);
    assert(final(agent)@.total_usage == final(agent).total_usage);
}

/// Where the results of tools could not be handed on, the reply that called them stays and the turn
/// is over.
pub proof fn law_lost_results_end_the_turn(agent: &mut Agent, message: Message, step: RunStep)
    requires
        call_ensures(Agent::tools_undelivered, (agent, message), step),
    ensures
        step == RunStep::Finished(Err(RunError::Undelivered)),
        final(agent)@.history == old(agent)@.history.push(Entry::Message(message)),
        only_history_differs(old(agent)@, final(agent)@),
{
}

/// The key of a mode.
pub open spec fn key_of_mode(id: ModeId) -> Seq<char> {
    match id {
        ModeId::Build => "build"@,
        ModeId::Plan => "plan"@,
        ModeId::Custom(name) => name@,
    }
}

/// A definition is the one of the mode that an agent works in.
pub open spec fn is_mode(def: ModeDef, mode: AgentMode) -> bool {
    key_of_mode(def.id) == match mode {
        AgentMode::Build => "build"@,
        AgentMode::Plan(_) => "plan"@,
        AgentMode::Custom(name) => name@,
    }
}

/// The first mode of a key, from a position on.
proof fn lemma_mode_from(modes: Seq<ModeDef>, key: Seq<char>, from: int)
    requires
        0 <= from,
    ensures
        match modes::mode_from(modes, key, from) {
            Some(def) => exists|i: int|
                {
                    &&& from <= i < modes.len()
                    &&& #[trigger] modes[i] == def
                    &&& key_of_mode(def.id) == key
                    &&& forall|j: int| from <= j < i ==> key_of_mode((#[trigger] modes[j]).id) != key
                },
            None => forall|j: int|
                from <= j < modes.len() ==> key_of_mode((#[trigger] modes[j]).id) != key,
        },
    decreases modes.len() - from,
{
    if from < modes.len() {
        if key_of_mode(modes[from].id) != key {
            lemma_mode_from(modes, key, from + 1);
        } else {
            assert(modes[from] == modes[from]);
        }
    }
}

/// The mode that an agent works in is the first one of its key, and while it plans it may write
/// nothing but the plan.
pub proof fn law_modes_are_found_by_key(
    modes: Vec<ModeDef>,
    mode: AgentMode,
    found: Option<&ModeDef>,
    writable: Option<&String>,
    id: ModeId,
    key: String,
)
    requires
        call_ensures(current_mode, (&modes, &mode), found),
        call_ensures(restrict_write_to, (&mode,), writable),
        call_ensures(ModeId::key, (&id,), key),
    ensures
        found matches Some(def) ==> exists|i: int|
            {
                &&& 0 <= i < modes@.len()
                &&& #[trigger] modes@[i] == *def
                &&& is_mode(*def, mode)
                &&& forall|j: int| 0 <= j < i ==> !is_mode(#[trigger] modes@[j], mode)
            },
        found is None ==> forall|j: int|
            0 <= j < modes@.len() ==> !is_mode(#[trigger] modes@[j], mode),
        mode matches AgentMode::Plan(path) ==> writable is Some && writable->0@ == path@,
        !(mode is Plan) ==> writable is None,
        key@ == key_of_mode(id),
{
    lemma_mode_from(modes@, modes::working_key(mode), 0);
}

/// A tool's definition names one of the tools.
pub open spec fn names_one_of(definition: Seq<char>, tools: Seq<String>) -> bool {
    exists|i: int|
        {
            &&& 0 <= i < tools.len()
            &&& json::json_member(definition, "name"@) matches Some(name)
            &&& json::json_string(name) == Some((#[trigger] tools[i])@)
        }
}

/// The definitions that are allowed are those that name an allowed tool.
proof fn lemma_allowed(definitions: Seq<Seq<char>>, allowed: Seq<String>)
    ensures
        run::allowed_definitions(definitions, allowed) == definitions.filter(
            |definition: Seq<char>| names_one_of(definition, allowed),
        ),
    decreases definitions.len(),
{
    reveal(Seq::filter);
    if definitions.len() > 0 {
        lemma_allowed(definitions.drop_last(), allowed);
        let definition = definitions.last();
        if names_one_of(definition, allowed) {
            let i = choose|i: int|
                {
                    &&& 0 <= i < allowed.len()
                    &&& json::json_member(definition, "name"@) matches Some(name)
                    &&& json::json_string(name) == Some((#[trigger] allowed[i])@)
                };
            assert(allowed[i]@ == json::json_string(
                json::json_member(definition, "name"@)->0,
            )->0);
        }
        if run::is_allowed(definition, allowed) {
            let name = json::json_string(json::json_member(definition, "name"@)->0)->0;
            let i = choose|i: int| 0 <= i < allowed.len() && (#[trigger] allowed[i])@ == name;
            assert(allowed[i]@ == name);
        }
    }
}

/// Of a list of tools exactly those stay, in order, whose names are allowed; what is no list stays
/// as it is.
pub proof fn law_tools_are_kept_by_name(
    all: serde_json::Value,
    allowed: Vec<String>,
    kept: serde_json::Value,
)
    requires
        call_ensures(filter_tools, (&all, &allowed), kept),
    ensures
        json::json_elements(json::json_text(all)) matches Some(definitions)
            ==> json::json_elements(json::json_text(kept)) == Some(
            definitions.filter(|definition: Seq<char>| names_one_of(definition, allowed@)),
        ),
        json::json_elements(json::json_text(all)) is None ==> json::json_text(kept)
            == json::json_text(all),
{
    if json::json_elements(json::json_text(all)) is Some {
        lemma_allowed(json::json_elements(json::json_text(all))->0, allowed@);
    }
}

/// The model is offered the tools of its mode where the mode names some, and otherwise all.
pub proof fn law_modes_limit_the_tools(
    tools: serde_json::Value,
    modes: Vec<ModeDef>,
    mode: AgentMode,
    offered: serde_json::Value,
    found: Option<&ModeDef>,
)
    requires
        call_ensures(request_tools, (&tools, &modes, &mode), offered),
        call_ensures(current_mode, (&modes, &mode), found),
    ensures
        found is None || found->0.tools is None ==> json::json_text(offered) == json::json_text(
            tools,
        ),
        found is Some && found->0.tools is Some ==> {
            let allowed = found->0.tools->0@;
            &&& json::json_elements(json::json_text(tools)) matches Some(definitions)
                ==> json::json_elements(json::json_text(offered)) == Some(
                definitions.filter(|definition: Seq<char>| names_one_of(definition, allowed)),
            )
            &&& json::json_elements(json::json_text(tools)) is None ==> json::json_text(offered)
                == json::json_text(tools)
        },
{
    if found is Some && found->0.tools is Some && json::json_elements(
        json::json_text(tools),
    ) is Some {
        lemma_allowed(json::json_elements(json::json_text(tools))->0, found->0.tools->0@);
    }
}

/// The model that is set up for compactions is taken exactly where nothing stands against it, and
/// tools work in the session's directory, or else in the process's, or else in the current one.
pub proof fn law_what_is_set_up_is_taken(
    spec: Option<String>,
    allowed: bool,
    readable: bool,
    available: bool,
    model: Option<String>,
    session: Option<&str>,
    process: Option<&str>,
    cwd: String,
)
    requires
        call_ensures(resolve_compaction_model, (spec, allowed, readable, available), model),
        call_ensures(tool_cwd, (session, process), cwd),
    ensures
        allowed && readable && available ==> model == spec,
        !allowed || !readable || !available ==> model is None,
        session is Some ==> cwd@ == session->0@,
        session is None && process is Some ==> cwd@ == process->0@,
        session is None && process is None ==> cwd@ == "."@,
{
}

} // verus!
