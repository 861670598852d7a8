//! What a prompt says, and the operations that prompts start.
use vstd::prelude::*;

use crate::acp::error::{AcpError, CoordinatorError};
use crate::acp::operations;
use crate::acp::operations::{
    abandon_operation, agent_input, on_compaction_end, on_compaction_event, on_isolated_end,
    on_isolated_event, send_command_turn, send_isolated_turn, send_manual_compaction, LeaseReply,
    ManualCompactionEvent, OperationIds, OperationStep, StartedCompaction, StartedQuestion,
    StartedTurn,
};
use crate::acp::options::SessionOption;
use crate::acp::pending::{OperationKind, Pending, PendingModel, RequestId};
use crate::acp::prompt;
use crate::acp::prompt::{
    append, attached_images, extract_prompt_content, image_media_type, PromptBlock,
};
use crate::acp::updates::{Action, PromptEnd, SessionUpdate, StopReason};
use crate::agent::isolated_turn::IsolatedTurnEvent;
use crate::promises::pending as outstanding;
use crate::promises::pump;
use crate::types::{
    AgentInput, AgentMode, AgentTurn, CommandAttachment, CommandContent, ImageMediaType,
    ImageSource, McpPromptRef, SessionDefaults,
};

verus! {

/// What a piece of a prompt says in words.
pub open spec fn words_of(block: PromptBlock) -> Option<Seq<char>> {
    match block {
        PromptBlock::Text(text) => Some(text@),
        PromptBlock::TextResource { uri, text } => Some("--- "@ + uri@ + " ---\\n"@ + text@),
        PromptBlock::ResourceLink { uri } => Some("[Resource: "@ + uri@ + "]"@),
        _ => None,
    }
}

/// The words of the first pieces of a prompt, each on a line of its own behind those before it.
pub open spec fn words_until(blocks: Seq<PromptBlock>, count: int) -> Seq<char>
    decreases count,
{
    if count <= 0 {
        Seq::empty()
    } else {
        let before = words_until(blocks, count - 1);
        match words_of(blocks[count - 1]) {
            Some(words) => if before.len() == 0 {
                words
            } else {
                before + "\n"@ + words
            },
            None => before,
        }
    }
}

/// So many of the first pieces of a prompt are images.
pub open spec fn images_until(blocks: Seq<PromptBlock>, count: int) -> int
    decreases count,
{
    if count <= 0 {
        0
    } else if blocks[count - 1] is Image {
        images_until(blocks, count - 1) + 1
    } else {
        images_until(blocks, count - 1)
    }
}

/// The attachments are the images of the first pieces of a prompt: each in its place among them, as
/// it was sent.
pub open spec fn attaches(
    attachments: Seq<CommandAttachment>,
    blocks: Seq<PromptBlock>,
    count: int,
) -> bool {
    &&& attachments.len() == images_until(blocks, count)
    &&& forall|i: int|
        0 <= i < count && #[trigger] blocks[i] is Image ==> {
            let at = images_until(blocks, i);
            &&& 0 <= at < attachments.len()
            &&& blocks[i] matches PromptBlock::Image { mime_type, data }
                && attachments[at].media_type@ == mime_type@ && attachments[at].data@ == data@
        }
}

/// What the first pieces of a prompt say.
pub proof fn lemma_said(blocks: Seq<PromptBlock>, count: int)
    requires
        0 <= count <= blocks.len(),
    ensures
        prompt::prompt_text(blocks.take(count)) == words_until(blocks, count),
        attaches(prompt::prompt_attachments(blocks.take(count)), blocks, count),
    decreases count,
{
    if count > 0 {
        lemma_said(blocks, count - 1);
        let longer = blocks.take(count);
        assert(longer.drop_last() =~= blocks.take(count - 1));
        assert(longer.last() == blocks[count - 1]);
        let before = prompt::prompt_attachments(blocks.take(count - 1));
        let attachments = prompt::prompt_attachments(longer);
        assert forall|i: int| 0 <= i < count && #[trigger] blocks[i] is Image implies {
            let at = images_until(blocks, i);
            &&& 0 <= at < attachments.len()
            &&& blocks[i] matches PromptBlock::Image { mime_type, data }
                && attachments[at].media_type@ == mime_type@ && attachments[at].data@ == data@
        } by {
            if i < count - 1 {
                assert(blocks[i] is Image);
                assert(0 <= images_until(blocks, i) < before.len());
            }
        }
    }
}

/// A prompt is taken on exactly where it holds no piece that it cannot: no sound, no embedded bytes
/// and nothing unknown. Then all its words are said, in order, and every image goes with them.
pub proof fn law_prompts_say_everything(
    blocks: Vec<PromptBlock>,
    said: Result<CommandContent, AcpError>,
)
    requires
        call_ensures(extract_prompt_content, (&blocks,), said),
    ensures
        said is Err <==> exists|i: int|
            {
                &&& 0 <= i < blocks@.len()
                &&& (#[trigger] blocks@[i] is BlobResource || blocks@[i] is Audio || blocks@[i]
                    is Unknown)
            },
        said matches Err(error) ==> pump::explained(
            error,
            -32602,
            "Invalid params"@,
            "unsupported content block in command prompt"@,
        ),
        said matches Ok(content) ==> {
            &&& content.text@ == words_until(blocks@, blocks@.len() as int)
            &&& attaches(content.attachments@, blocks@, blocks@.len() as int)
        },
{
    assert(blocks@.take(blocks@.len() as int) =~= blocks@);
    lemma_said(blocks@, blocks@.len() as int);
    if said is Err {
        let i = choose|i: int|
            0 <= i < blocks@.len() && prompt::block_text(#[trigger] blocks@[i]) is None;
        assert(blocks@[i] is BlobResource || blocks@[i] is Audio || blocks@[i] is Unknown);
    }
}

/// A part stands on a line of its own behind a text, and alone where there is none.
pub proof fn law_parts_stand_on_their_own_lines(text: &mut String, part: &str)
    requires
        call_ensures(append, (text, part), ()),
    ensures
        old(text)@.len() == 0 ==> final(text)@ == part@,
        old(text)@.len() > 0 ==> final(text)@ == old(text)@ + "\n"@ + part@,
{
}

/// The encoding of an image is the one its media type names; what is not known is taken for a
/// photograph.
pub open spec fn encoded_as(mime: Seq<char>, media: ImageMediaType) -> bool {
    &&& media == ImageMediaType::Png <==> mime == "image/png"@
    &&& media == ImageMediaType::Gif <==> mime == "image/gif"@
    &&& media == ImageMediaType::Webp <==> mime == "image/webp"@
    &&& media == ImageMediaType::Jpeg <==> mime != "image/png"@ && mime != "image/gif"@ && mime
        != "image/webp"@
}

/// The names of the encodings differ.
proof fn lemma_encodings_differ()
    ensures
        "image/png"@ != "image/gif"@,
        "image/png"@ != "image/webp"@,
        "image/gif"@ != "image/webp"@,
{
    reveal_strlit("image/png");
    reveal_strlit("image/gif");
    reveal_strlit("image/webp");
    assert("image/png"@[6] != "image/gif"@[6]);
    assert("image/png"@.len() != "image/webp"@.len());
    assert("image/gif"@.len() != "image/webp"@.len());
}

/// The images of a prompt keep their data, their order and their encoding.
pub proof fn law_images_are_kept(
    attachments: Vec<CommandAttachment>,
    images: Vec<ImageSource>,
    i: int,
    mime: &str,
    media: ImageMediaType,
)
    requires
        call_ensures(attached_images, (&attachments,), images),
        call_ensures(image_media_type, (mime,), media),
    ensures
        encoded_as(mime@, media),
        are_images_of(images@, attachments@),
        images@.len() == attachments@.len(),
        0 <= i < images@.len() ==> images@[i].data@ == attachments@[i].data@ && encoded_as(
            attachments@[i].media_type@,
            images@[i].media_type,
        ),
{
    lemma_encodings_differ();
    lemma_images(attachments@);
}

/// Images are those of attachments: the data of each, in order, in its encoding.
pub open spec fn are_images_of(images: Seq<ImageSource>, attachments: Seq<CommandAttachment>)
    -> bool {
    &&& images.len() == attachments.len()
    &&& forall|i: int|
        0 <= i < images.len() ==> {
            &&& (#[trigger] images[i]).data@ == attachments[i].data@
            &&& encoded_as(attachments[i].media_type@, images[i].media_type)
        }
}

/// The images of attachments.
proof fn lemma_images(attachments: Seq<CommandAttachment>)
    ensures
        are_images_of(
            attachments.map_values(|a: CommandAttachment| prompt::attached_image(a)),
            attachments,
        ),
{
    lemma_encodings_differ();
}

/// The identities of operations follow one another.
pub proof fn law_operation_identities_follow(
    first: OperationIds,
    ids: &mut OperationIds,
    taken: u64,
)
    requires
        call_ensures(OperationIds::new, (), first),
        call_ensures(OperationIds::take, (ids,), taken),
    ensures
        first.next == 1,
        taken == old(ids).next,
        old(ids).next < u64::MAX ==> final(ids).next == old(ids).next + 1,
        final(ids).next != old(ids).next,
{
}

/// Why an operation does not start: another is active, there is no coordinator, or the coordinator
/// refuses.
pub open spec fn start_refused(before: PendingModel, lease: LeaseReply, error: AcpError) -> bool {
    if before.operation is Some {
        pump::bare(error, -32600, "session already has an active operation"@)
    } else {
        match lease {
            LeaseReply::NoCoordinator => pump::bare(error, -32600, "no active session"@),
            LeaseReply::Refused(CoordinatorError::SessionBusy { message }) => pump::bare(
                error,
                -32600,
                message@,
            ),
            LeaseReply::Refused(CoordinatorError::OptionRejected { message }) => pump::explained(
                error,
                -32602,
                "Invalid params"@,
                message@,
            ),
            LeaseReply::Refused(CoordinatorError::Other { message }) => pump::explained(
                error,
                -32603,
                "Internal error"@,
                message@,
            ),
            LeaseReply::Refused(CoordinatorError::StaleSession { .. }) => error.code == -32002,
            LeaseReply::Granted(_) => false,
        }
    }
}

/// The operation that has started is the active one, under an identity of its own, for its request,
/// with its trigger and its lease.
pub open spec fn is_started(
    before: PendingModel,
    after: PendingModel,
    id: u64,
    request_id: RequestId,
    kind: OperationKind,
    cancel: u64,
    lease: LeaseReply,
) -> bool {
    &&& before.operation is None
    &&& after.retired_primary_run == before.retired_primary_run
    &&& after.permissions == before.permissions
    &&& after.elicitation == before.elicitation
    &&& after.operation matches Some(operation) && {
        &&& operation.id == id
        &&& operation.request_id == request_id
        &&& operation.kind == kind
        &&& operation.run_id is None
        &&& !operation.cancelling
        &&& operation.cancel == Some(cancel)
        &&& lease matches LeaseReply::Granted(lent) && operation.lease == Some(lent)
    }
}

/// A compaction starts as the active operation and is shown; one that cannot start leaves
/// everything as it was.
pub proof fn law_compactions_start(
    pending: &mut Pending,
    ids: &mut OperationIds,
    request_id: RequestId,
    instructions: Option<String>,
    lease: LeaseReply,
    cancel: u64,
    result: Result<StartedCompaction, AcpError>,
)
    requires
        call_ensures(
            send_manual_compaction,
            (pending, ids, request_id, instructions, lease, cancel),
            result,
        ),
    ensures
        result is Ok <==> old(pending)@.operation is None && lease is Granted,
        result matches Err(error) ==> {
            &&& start_refused(old(pending)@, lease, error)
            &&& final(pending)@ == old(pending)@
            &&& final(ids).next == old(ids).next
        },
        result matches Ok(begun) ==> {
            &&& begun.operation_id == old(ids).next
            &&& begun.tool_id@ == "compact-"@ + crate::text::decimal(old(ids).next as nat)
            &&& begun.instructions == instructions
            &&& begun.shown matches Action::Update(
                SessionUpdate::LocalOperationPending { tool_id, title },
            ) && tool_id@ == begun.tool_id@ && title@ == "Compact context"@
            &&& final(ids).next != old(ids).next
            &&& is_started(
                old(pending)@,
                final(pending)@,
                old(ids).next,
                request_id,
                OperationKind::ManualCompaction,
                cancel,
                lease,
            )
        },
{
}

/// A side question starts as the active operation with its text and its images; one that cannot
/// start leaves everything as it was.
pub proof fn law_side_questions_start(
    pending: &mut Pending,
    ids: &mut OperationIds,
    request_id: RequestId,
    content: CommandContent,
    lease: LeaseReply,
    cancel: u64,
    result: Result<StartedQuestion, AcpError>,
)
    requires
        call_ensures(
            send_isolated_turn,
            (pending, ids, request_id, content, lease, cancel),
            result,
        ),
    ensures
        result is Ok <==> old(pending)@.operation is None && lease is Granted,
        result matches Err(error) ==> {
            &&& start_refused(old(pending)@, lease, error)
            &&& final(pending)@ == old(pending)@
            &&& final(ids).next == old(ids).next
        },
        result matches Ok(begun) ==> {
            &&& begun.operation_id == old(ids).next
            &&& begun.question@ == content.text@
            &&& are_images_of(begun.images@, content.attachments@)
            &&& final(ids).next != old(ids).next
            &&& is_started(
                old(pending)@,
                final(pending)@,
                old(ids).next,
                request_id,
                OperationKind::IsolatedTurn,
                cancel,
                lease,
            )
        },
{
    lemma_images(content.attachments@);
}

/// Some option of an identity is on.
pub open spec fn switched_on(session: Seq<SessionOption>, id: Seq<char>) -> bool {
    exists|i: int|
        0 <= i < session.len() && #[trigger] session[i].id@ == id && session[i].current_value@
            == "enabled"@
}

/// A turn starts as the active operation with what the prompt says, in the session's mode and with
/// its defaults, fast or as a workflow also where the session's own option says so. A session
/// without a coordinator starts none, and what cannot start leaves everything as it was.
pub proof fn law_turns_start(
    pending: &mut Pending,
    ids: &mut OperationIds,
    request_id: RequestId,
    turn: AgentTurn,
    mode: AgentMode,
    defaults: SessionDefaults,
    session: Option<&Vec<SessionOption>>,
    lease: LeaseReply,
    cancel: u64,
    result: Result<StartedTurn, AcpError>,
)
    requires
        call_ensures(
            send_command_turn,
            (pending, ids, request_id, turn, &mode, defaults, session, lease, cancel),
            result,
        ),
    ensures
        result is Ok <==> session is Some && old(pending)@.operation is None && lease is Granted,
        result matches Err(error) ==> {
            &&& session is None ==> pump::bare(error, -32600, "no active session"@)
            &&& session is Some ==> start_refused(old(pending)@, lease, error)
            &&& final(pending)@ == old(pending)@
            &&& final(ids).next == old(ids).next
        },
        result matches Ok(begun) ==> {
            &&& begun.operation_id == old(ids).next
            &&& begun.input.message@ == turn.content.text@
            &&& are_images_of(begun.input.images@, turn.content.attachments@)
            &&& begun.input.mode == mode
            &&& begun.input.preamble@.len() == 0
            &&& begun.input.thinking == defaults.thinking
            &&& begun.input.fast <==> defaults.fast || switched_on(session->0@, "fast"@)
            &&& begun.input.workflow <==> defaults.workflow || switched_on(
                session->0@,
                "workflow"@,
            )
            &&& begun.input.prompt == turn.prompt
            &&& begun.input.batch_key is None <==> turn.prompt is Some
            &&& final(ids).next != old(ids).next
            &&& is_started(
                old(pending)@,
                final(pending)@,
                old(ids).next,
                request_id,
                OperationKind::PrimaryTurn,
                cancel,
                lease,
            )
        },
{
    lemma_images(turn.content.attachments@);
}

/// An input holds what it is made of, and one that was made from an outside prompt is answered
/// alone.
pub proof fn law_inputs_hold_what_they_are_made_of(
    message: String,
    images: Vec<ImageSource>,
    mode: AgentMode,
    defaults: SessionDefaults,
    prompt: Option<McpPromptRef>,
    input: AgentInput,
)
    requires
        call_ensures(agent_input, (message, images, mode, defaults, prompt), input),
    ensures
        input.message@ == message@,
        input.images@ == images@,
        input.mode == mode,
        input.preamble@.len() == 0,
        input.thinking == defaults.thinking,
        input.fast == defaults.fast,
        input.workflow == defaults.workflow,
        input.prompt == prompt,
        input.batch_key is None <==> prompt is Some,
        prompt is None ==> input.batch_key == Some(0u64),
{
}

/// The operation is the active one of its kind.
pub open spec fn is_own(before: PendingModel, id: u64, kind: OperationKind) -> bool {
    &&& before.operation is Some
    &&& before.operation->0.id == id
    &&& before.operation->0.kind == kind
}

/// An operation that could not be handed on is no longer active, and the client is told.
pub proof fn law_abandoned_operations_end(
    pending: &mut Pending,
    id: u64,
    kind: OperationKind,
    error: AcpError,
)
    requires
        call_ensures(abandon_operation, (pending, id, kind), error),
    ensures
        pump::bare(error, -32603, "session ended"@),
        is_own(old(pending)@, id, kind) ==> outstanding::is_over(
            old(pending)@,
            final(pending)@,
        ),
        !is_own(old(pending)@, id, kind) ==> final(pending)@ == old(pending)@,
{
}

/// The client is shown that a local operation has come to its end.
pub open spec fn shows_end(action: Action, tool: Seq<char>, failure: Option<Seq<char>>) -> bool {
    action matches Action::Update(SessionUpdate::LocalOperationTerminal { tool_id, error }) && {
        &&& tool_id@ == tool
        &&& failure is None <==> error is None
        &&& failure is Some ==> error->0@ == failure->0
    }
}

/// A compaction that has come to its end is shown and answered as it ended, once; one that is not
/// the active operation any more is not. Until then it is only shown that it has started.
pub proof fn law_compactions_end_as_they_do(
    pending: &mut Pending,
    id: u64,
    tool: &str,
    event: ManualCompactionEvent,
    step: OperationStep,
)
    requires
        call_ensures(on_compaction_event, (pending, id, tool, event), step),
    ensures
        ({
            let before = old(pending)@;
            let after = final(pending)@;
            let own = is_own(before, id, OperationKind::ManualCompaction);
            let actions = step.actions@;
            &&& step.done <==> !(event is Started)
            &&& event is Started ==> {
                &&& after == before
                &&& actions.len() == 1
                &&& actions[0] matches Action::Update(
                    SessionUpdate::LocalOperationStarted { tool_id },
                ) && tool_id@ == tool@
            }
            &&& !(event is Started) && !own ==> after == before && actions.len() == 0
            &&& !(event is Started) && own ==> {
                &&& outstanding::is_over(before, after)
                &&& actions.len() == 2
                &&& actions[1] matches Action::Respond { id: answered, end } && {
                    &&& answered == before.operation->0.request_id
                    &&& match event {
                        ManualCompactionEvent::Completed => shows_end(actions[0], tool@, None)
                            && end == PromptEnd::Stopped(StopReason::EndTurn),
                        ManualCompactionEvent::Cancelled => shows_end(
                            actions[0],
                            tool@,
                            Some("cancelled"@),
                        ) && end == PromptEnd::Stopped(StopReason::Cancelled),
                        ManualCompactionEvent::Failed(reason) => shows_end(
                            actions[0],
                            tool@,
                            Some(reason@),
                        ) && (end matches PromptEnd::Failed(error) && pump::explained(
                            error,
                            -32603,
                            "Internal error"@,
                            reason@,
                        )),
                        ManualCompactionEvent::Started => false,
                    }
                }
            }
        }),
{
}

/// A compaction that reports nothing any more has failed.
pub proof fn law_silent_compactions_fail(
    pending: &mut Pending,
    id: u64,
    tool: &str,
    actions: Vec<Action>,
)
    requires
        call_ensures(on_compaction_end, (pending, id, tool), actions),
    ensures
        ({
            let before = old(pending)@;
            let own = is_own(before, id, OperationKind::ManualCompaction);
            &&& !own ==> final(pending)@ == before && actions@.len() == 0
            &&& own ==> {
                &&& outstanding::is_over(before, final(pending)@)
                &&& actions@.len() == 2
                &&& shows_end(actions@[0], tool@, Some("event stream ended"@))
                &&& actions@[1] matches Action::Respond { id: answered, end } && answered
                    == before.operation->0.request_id && (end matches PromptEnd::Failed(error)
                    && pump::explained(
                    error,
                    -32603,
                    "Internal error"@,
                    "manual compaction event stream ended"@,
                ))
            }
        }),
{
}

/// What a side question says is shown as what it is, and its end answers the prompt as it ended,
/// once.
pub proof fn law_side_questions_are_shown_and_answered(
    pending: &mut Pending,
    id: u64,
    event: IsolatedTurnEvent,
    step: OperationStep,
)
    requires
        call_ensures(on_isolated_event, (pending, id, event), step),
    ensures
        ({
            let before = old(pending)@;
            let after = final(pending)@;
            let own = is_own(before, id, OperationKind::IsolatedTurn);
            let actions = step.actions@;
            let says = event is TextDelta || event is ThinkingDelta;
            &&& step.done <==> !says
            &&& event matches IsolatedTurnEvent::TextDelta(text) ==> after == before
                && pump::shows_only(actions, SessionUpdate::TextDelta(text))
            &&& event matches IsolatedTurnEvent::ThinkingDelta(text) ==> after == before
                && pump::shows_only(actions, SessionUpdate::ThinkingDelta(text))
            &&& !says && !own ==> after == before && actions.len() == 0
            &&& !says && own ==> {
                &&& outstanding::is_over(before, after)
                &&& actions.len() == 1
                &&& actions[0] matches Action::Respond { id: answered, end } && {
                    &&& answered == before.operation->0.request_id
                    &&& event is Done ==> end == PromptEnd::Stopped(StopReason::EndTurn)
                    &&& event is Cancelled ==> end == PromptEnd::Stopped(StopReason::Cancelled)
                    &&& event matches IsolatedTurnEvent::Error(reason) ==> (
                    end matches PromptEnd::Failed(error) && pump::explained(
                        error,
                        -32603,
                        "Internal error"@,
                        reason@,
                    ))
                }
            }
        }),
{
}

/// A side question that reports nothing any more has failed.
pub proof fn law_silent_side_questions_fail(
    pending: &mut Pending,
    id: u64,
    actions: Vec<Action>,
)
    requires
        call_ensures(on_isolated_end, (pending, id), actions),
    ensures
        ({
            let before = old(pending)@;
            let own = is_own(before, id, OperationKind::IsolatedTurn);
            &&& !own ==> final(pending)@ == before && actions@.len() == 0
            &&& own ==> {
                &&& outstanding::is_over(before, final(pending)@)
                &&& actions@.len() == 1
                &&& actions@[0] matches Action::Respond { id: answered, end } && answered
                    == before.operation->0.request_id && (end matches PromptEnd::Failed(error)
                    && pump::explained(
                    error,
                    -32603,
                    "Internal error"@,
                    "isolated turn event stream ended"@,
                ))
            }
        }),
{
}

} // verus!
