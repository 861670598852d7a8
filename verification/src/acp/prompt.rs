//! What a client's prompt says.
use vstd::prelude::*;

use crate::acp::error;
use crate::acp::error::{AcpError, ErrorData};
use crate::text::same_text;
use crate::types::{CommandAttachment, CommandContent, ImageMediaType, ImageSource};

verus! {

/// One piece of a client's prompt.
#[derive(Debug, PartialEq, Eq)]
pub enum PromptBlock {
    Text(String),
    Image { mime_type: String, data: String },
    /// A text that the client embeds.
    TextResource { uri: String, text: String },
    /// Bytes that the client embeds.
    BlobResource { uri: String },
    ResourceLink { uri: String },
    Audio,
    /// A piece of a kind that is not known.
    Unknown,
}

/// A text with a part on a line of its own behind it.
pub open spec fn appended(text: Seq<char>, part: Seq<char>) -> Seq<char> {
    if text.len() == 0 {
        part
    } else {
        text + "\n"@ + part
    }
}

/// Puts a part on a line of its own behind a text.
pub fn append(text: &mut String, part: &str)
    ensures
        final(text)@ == appended(old(text)@, part@),
{
    if !text.as_str().is_empty() {
        text.append("\n");
    } else {
        assert(text@ + part@ =~= part@);
    }
    text.append(part);
}

/// The text that a piece of a prompt contributes: nothing for an image, and no answer for a piece
/// that a prompt cannot hold. Between the heading of an embedded text and the text itself stand a
/// backslash and the letter n.
pub open spec fn block_text(block: PromptBlock) -> Option<Option<Seq<char>>> {
    match block {
        PromptBlock::Text(text) => Some(Some(text@)),
        PromptBlock::Image { .. } => Some(None),
        PromptBlock::TextResource { uri, text } => Some(
            Some("--- "@ + uri@ + " ---\\n"@ + text@),
        ),
        PromptBlock::BlobResource { .. } => None,
        PromptBlock::ResourceLink { uri } => Some(Some("[Resource: "@ + uri@ + "]"@)),
        PromptBlock::Audio => None,
        PromptBlock::Unknown => None,
    }
}

/// A prompt can hold every piece.
pub open spec fn supported(blocks: Seq<PromptBlock>) -> bool {
    forall|i: int| 0 <= i < blocks.len() ==> block_text(#[trigger] blocks[i]) is Some
}

/// The text of a prompt.
pub open spec fn prompt_text(blocks: Seq<PromptBlock>) -> Seq<char>
    decreases blocks.len(),
{
    if blocks.len() == 0 {
        Seq::empty()
    } else {
        let before = prompt_text(blocks.drop_last());
        match block_text(blocks.last()) {
            Some(Some(part)) => appended(before, part),
            _ => before,
        }
    }
}

/// The images of a prompt, as attachments.
pub open spec fn prompt_attachments(blocks: Seq<PromptBlock>) -> Seq<CommandAttachment>
    decreases blocks.len(),
{
    if blocks.len() == 0 {
        Seq::empty()
    } else {
        let before = prompt_attachments(blocks.drop_last());
        match blocks.last() {
            PromptBlock::Image { mime_type, data } => before.push(
                CommandAttachment { media_type: mime_type, data },
            ),
            _ => before,
        }
    }
}

/// The error that a prompt holds a piece that it cannot.
pub open spec fn unsupported_block() -> error::ErrorView {
    error::invalid_params_because("unsupported content block in command prompt"@)
}

/// The error that a prompt holds a piece that it cannot.
fn unsupported() -> (result: AcpError)
    ensures
        result@ == unsupported_block(),
{
    AcpError::invalid_params().data(
        ErrorData::Text("unsupported content block in command prompt".to_owned()),
    )
}

/// What a client's prompt says.
pub fn extract_prompt_content(blocks: &Vec<PromptBlock>) -> (result: Result<
    CommandContent,
    AcpError,
>)
    ensures
        match result {
            Ok(content) => {
                &&& supported(blocks@)
                &&& content.text@ == prompt_text(blocks@)
                &&& content.attachments@ == prompt_attachments(blocks@)
            },
            Err(error) => !supported(blocks@) && error@ == unsupported_block(),
        },
{
    let mut text = String::new();
    let mut attachments: Vec<CommandAttachment> = Vec::new();
    let mut i: usize = 0;
    assert(blocks@.take(0) =~= Seq::empty());
    while i < blocks.len()
        invariant
            i <= blocks@.len(),
            supported(blocks@.take(i as int)),
            text@ == prompt_text(blocks@.take(i as int)),
            attachments@ == prompt_attachments(blocks@.take(i as int)),
        decreases blocks@.len() - i,
    {
        let ghost longer = blocks@.take(i + 1);
        assert(longer.drop_last() =~= blocks@.take(i as int));
        assert(longer.last() == blocks@[i as int]);
        match &blocks[i] {
            PromptBlock::Text(part) => {
                append(&mut text, part.as_str());
            },
            PromptBlock::Image { mime_type, data } => {
                attachments.push(
                    CommandAttachment { media_type: mime_type.clone(), data: data.clone() },
                );
            },
            PromptBlock::TextResource { uri, text: part } => {
                let mut shown = "--- ".to_owned();
                shown.append(uri.as_str());
                shown.append(" ---\\n");
                shown.append(part.as_str());
                append(&mut text, shown.as_str());
            },
            PromptBlock::ResourceLink { uri } => {
                let mut shown = "[Resource: ".to_owned();
                shown.append(uri.as_str());
                shown.append("]");
                append(&mut text, shown.as_str());
            },
            _ => {
                assert(block_text(blocks@[i as int]) is None);
                return Err(unsupported());
            },
        }
        assert forall|j: int| 0 <= j < longer.len() implies block_text(
            #[trigger] longer[j],
        ) is Some by {
            if j < i {
                assert(blocks@.take(i as int)[j] == longer[j]);
            }
        }
        i += 1;
    }
    assert(blocks@.take(i as int) =~= blocks@);
    Ok(CommandContent { text, attachments })
}

/// The encoding that a media type stands for; one that is not known is taken for a photograph.
pub open spec fn media_type(mime: Seq<char>) -> ImageMediaType {
    if mime == "image/png"@ {
        ImageMediaType::Png
    } else if mime == "image/gif"@ {
        ImageMediaType::Gif
    } else if mime == "image/webp"@ {
        ImageMediaType::Webp
    } else {
        ImageMediaType::Jpeg
    }
}

/// The encoding that a media type stands for.
pub fn image_media_type(mime: &str) -> (result: ImageMediaType)
    ensures
        result == media_type(mime@),
{
    if same_text(mime, "image/png") {
        ImageMediaType::Png
    } else if same_text(mime, "image/gif") {
        ImageMediaType::Gif
    } else if same_text(mime, "image/webp") {
        ImageMediaType::Webp
    } else {
        ImageMediaType::Jpeg
    }
}

/// The image that an attachment holds.
pub open spec fn attached_image(attachment: CommandAttachment) -> ImageSource {
    ImageSource { media_type: media_type(attachment.media_type@), data: attachment.data }
}

/// The images that attachments hold.
pub fn attached_images(attachments: &Vec<CommandAttachment>) -> (result: Vec<ImageSource>)
    ensures
        result@ == attachments@.map_values(|a: CommandAttachment| attached_image(a)),
{
    let mut images: Vec<ImageSource> = Vec::new();
    let mut i: usize = 0;
    while i < attachments.len()
        invariant
            i <= attachments@.len(),
            images@.len() == i,
            forall|j: int|
                0 <= j < i ==> #[trigger] images@[j] == attached_image(attachments@[j]),
        decreases attachments@.len() - i,
    {
        images.push(
            ImageSource {
                media_type: image_media_type(attachments[i].media_type.as_str()),
                data: attachments[i].data.clone(),
            },
        );
        i += 1;
    }
    assert(images@ =~= attachments@.map_values(|a: CommandAttachment| attached_image(a)));
    images
}

} // verus!
