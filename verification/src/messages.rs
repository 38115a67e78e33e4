//! Status messages. The library names a message by its identifier and its
//! arguments; a formatter outside the library turns the two into text.

use vstd::prelude::*;
use fluent_bundle::FluentArgs;
use crate::text::text_view;

verus! {

/// The identifier of a message.
#[derive(Clone, Copy, Debug, PartialEq, Eq, Structural)]
pub enum MessageId {
    Idling,
    ErrorCheckLogs,
    NoFiles,
    DeletingFiles,
    FailedDeletingFile,
    FilteringFiles,
    FailedOpeningFile,
    ExtractingFiles,
    FailedExtractingFile,
    AllExtracted,
    Stage,
    Swapped,
    Copied,
}

/// A stage of the run that extracts the whole cache.
#[derive(Clone, Copy, Debug, PartialEq, Eq, Structural)]
pub enum Stage {
    /// The music directory is extracted.
    Music,
    /// The files fetched over HTTP are told apart.
    Sniff,
    /// The files that were told apart are extracted.
    Extract,
}

/// The arguments of a message.
#[derive(Debug)]
pub enum MessageArgs {
    /// No argument.
    Empty,
    /// The number of an item and the number of all items.
    Count { item: usize, total: usize },
    /// As `Count`, within a stage, for the message `inner`.
    Staged { item: usize, total: usize, stage: Stage, inner: MessageId },
    /// The text of an error.
    Error { error: String },
    /// The names of two items.
    Pair { item_a: String, item_b: String },
}

/// A status message: an identifier with its arguments.
#[derive(Debug)]
pub struct StatusMessage {
    pub id: MessageId,
    pub args: MessageArgs,
}

/// The arguments of a message as contracts see them.
pub enum MessageArgsView {
    Empty,
    Count { item: usize, total: usize },
    Staged { item: usize, total: usize, stage: Stage, inner: MessageId },
    Error { error: Seq<char> },
    Pair { item_a: Seq<char>, item_b: Seq<char> },
}

/// A status message as contracts see it.
pub struct MessageView {
    pub id: MessageId,
    pub args: MessageArgsView,
}

/// The value of one argument.
pub enum ArgValue {
    /// A number.
    Number(usize),
    /// A text.
    Text(Seq<char>),
}

impl View for MessageArgs {
    type V = MessageArgsView;

    open spec fn view(&self) -> MessageArgsView {
        match *self {
            MessageArgs::Empty => MessageArgsView::Empty,
            MessageArgs::Count { item, total } => MessageArgsView::Count { item, total },
            MessageArgs::Staged { item, total, stage, inner } => MessageArgsView::Staged {
                item,
                total,
                stage,
                inner,
            },
            MessageArgs::Error { error } => MessageArgsView::Error { error: error@ },
            MessageArgs::Pair { item_a, item_b } => MessageArgsView::Pair {
                item_a: item_a@,
                item_b: item_b@,
            },
        }
    }
}

impl View for StatusMessage {
    type V = MessageView;

    open spec fn view(&self) -> MessageView {
        MessageView { id: self.id, args: self.args@ }
    }
}

/// The message `id` without arguments.
pub open spec fn plain_message(id: MessageId) -> MessageView {
    MessageView { id, args: MessageArgsView::Empty }
}

/// The message `id` about item `item` of `total`.
pub open spec fn counted_message(id: MessageId, item: usize, total: usize) -> MessageView {
    MessageView { id, args: MessageArgsView::Count { item, total } }
}

/// The stage message that wraps the message `inner` about item `item` of
/// `total`.
pub open spec fn staged_message(stage: Stage, inner: MessageId, item: usize, total: usize)
    -> MessageView {
    MessageView { id: MessageId::Stage, args: MessageArgsView::Staged { item, total, stage, inner } }
}

impl MessageId {
    /// The key under which the formatter knows the message.
    pub open spec fn spec_key(self) -> Seq<char> {
        match self {
            MessageId::Idling => "idling"@,
            MessageId::ErrorCheckLogs => "error-check-logs"@,
            MessageId::NoFiles => "no-files"@,
            MessageId::DeletingFiles => "deleting-files"@,
            MessageId::FailedDeletingFile => "failed-deleting-file"@,
            MessageId::FilteringFiles => "filtering-files"@,
            MessageId::FailedOpeningFile => "failed-opening-file"@,
            MessageId::ExtractingFiles => "extracting-files"@,
            MessageId::FailedExtractingFile => "failed-extracting-file"@,
            MessageId::AllExtracted => "all-extracted"@,
            MessageId::Stage => "stage"@,
            MessageId::Swapped => "swapped"@,
            MessageId::Copied => "copied"@,
        }
    }

    /// The key under which the formatter knows the message.
    pub fn key(self) -> (r: String)
        ensures
            r@ == self.spec_key(),
    {
        match self {
            MessageId::Idling => "idling".to_owned(),
            MessageId::ErrorCheckLogs => "error-check-logs".to_owned(),
            MessageId::NoFiles => "no-files".to_owned(),
            MessageId::DeletingFiles => "deleting-files".to_owned(),
            MessageId::FailedDeletingFile => "failed-deleting-file".to_owned(),
            MessageId::FilteringFiles => "filtering-files".to_owned(),
            MessageId::FailedOpeningFile => "failed-opening-file".to_owned(),
            MessageId::ExtractingFiles => "extracting-files".to_owned(),
            MessageId::FailedExtractingFile => "failed-extracting-file".to_owned(),
            MessageId::AllExtracted => "all-extracted".to_owned(),
            MessageId::Stage => "stage".to_owned(),
            MessageId::Swapped => "swapped".to_owned(),
            MessageId::Copied => "copied".to_owned(),
        }
    }
}

impl Stage {
    /// The index of the stage, from 0.
    pub open spec fn spec_index(self) -> nat {
        match self {
            Stage::Music => 0,
            Stage::Sniff => 1,
            Stage::Extract => 2,
        }
    }

    /// The number of the stage as it is shown, from 1.
    pub open spec fn spec_label(self) -> Seq<char> {
        match self {
            Stage::Music => "1"@,
            Stage::Sniff => "2"@,
            Stage::Extract => "3"@,
        }
    }

    /// The index of the stage, from 0.
    pub fn index(self) -> (r: u8)
        ensures
            r == self.spec_index(),
            r < STAGES,
    {
        match self {
            Stage::Music => 0,
            Stage::Sniff => 1,
            Stage::Extract => 2,
        }
    }

    /// The number of the stage as it is shown, from 1.
    pub fn label(self) -> (r: String)
        ensures
            r@ == self.spec_label(),
    {
        match self {
            Stage::Music => "1".to_owned(),
            Stage::Sniff => "2".to_owned(),
            Stage::Extract => "3".to_owned(),
        }
    }
}

/// The number of stages of the run that extracts the whole cache.
pub const STAGES: u8 = 3;

impl StatusMessage {
    /// The message `id` without arguments.
    pub fn plain(id: MessageId) -> (r: StatusMessage)
        ensures
            r@ == plain_message(id),
    {
        StatusMessage { id, args: MessageArgs::Empty }
    }

    /// The message `id` about item `item` of `total`.
    pub fn counted(id: MessageId, item: usize, total: usize) -> (r: StatusMessage)
        ensures
            r@ == counted_message(id, item, total),
    {
        StatusMessage { id, args: MessageArgs::Count { item, total } }
    }

    /// The stage message that wraps the message `inner` about item `item`
    /// of `total`.
    pub fn staged(stage: Stage, inner: MessageId, item: usize, total: usize) -> (r: StatusMessage)
        ensures
            r@ == staged_message(stage, inner, item, total),
    {
        StatusMessage { id: MessageId::Stage, args: MessageArgs::Staged { item, total, stage, inner } }
    }
}

/// No argument at all.
pub open spec fn no_arguments() -> Map<Seq<char>, ArgValue> {
    Map::empty()
}

/// The arguments that the formatter gets for a message, by name.
///
/// A stage message has, besides the numbers of the item and of all items,
/// the number of the stage and of the last stage as texts and, once the
/// message that it wraps has been formatted, that text as `status`.
pub open spec fn argument_map(args: MessageArgsView, status: Option<Seq<char>>) -> Map<
    Seq<char>,
    ArgValue,
> {
    match args {
        MessageArgsView::Empty => Map::empty(),
        MessageArgsView::Count { item, total } => Map::empty().insert(
            "item"@,
            ArgValue::Number(item),
        ).insert("total"@, ArgValue::Number(total)),
        MessageArgsView::Staged { item, total, stage, inner } => {
            let base = Map::empty().insert("item"@, ArgValue::Number(item)).insert(
                "total"@,
                ArgValue::Number(total),
            ).insert("stage"@, ArgValue::Text(stage.spec_label())).insert(
                "max"@,
                ArgValue::Text("3"@),
            );
            match status {
                Some(text) => base.insert("status"@, ArgValue::Text(text)),
                None => base,
            }
        },
        MessageArgsView::Error { error } => Map::empty().insert("error"@, ArgValue::Text(error)),
        MessageArgsView::Pair { item_a, item_b } => Map::empty().insert(
            "item_a"@,
            ArgValue::Text(item_a),
        ).insert("item_b"@, ArgValue::Text(item_b)),
    }
}

/// The named arguments of the crate `fluent_bundle`. The library fills such
/// a value and hands it to the formatter.
#[verifier::external_type_specification]
#[verifier::external_body]
pub struct ExFluentArgs<'args>(fluent_bundle::FluentArgs<'args>);

/// Named arguments that own their names and values.
pub type Arguments = FluentArgs<'static>;

/// What a `FluentArgs` holds: the value that `get` finds under each name. A
/// number stands for the value that `FluentValue::from` makes of it, a text
/// for the string value of that text.
pub uninterp spec fn args_of(args: Arguments) -> Map<Seq<char>, ArgValue>;

/// `FluentArgs::new`: the result holds no argument.
#[verifier::external_body]
fn new_arguments() -> (r: Arguments)
    ensures
        args_of(r) == no_arguments(),
{
    FluentArgs::new()
}

/// `FluentArgs::set` with a number: afterwards the name holds the number,
/// whether or not it held a value before, and every other name holds what
/// it held.
#[verifier::external_body]
fn set_number(args: &mut Arguments, key: &str, value: usize)
    ensures
        args_of(*final(args)) == args_of(*old(args)).insert(key@, ArgValue::Number(value)),
{
    args.set(key.to_owned(), value);
}

/// `FluentArgs::set` with a text: afterwards the name holds the text,
/// whether or not it held a value before, and every other name holds what
/// it held.
#[verifier::external_body]
fn set_text(args: &mut Arguments, key: &str, value: &str)
    ensures
        args_of(*final(args)) == args_of(*old(args)).insert(key@, ArgValue::Text(value@)),
{
    args.set(key.to_owned(), value.to_owned());
}

/// Fills the named arguments of a message for the formatter.
///
/// For a stage message, `status` is the formatted text of the message that
/// it wraps; without it the argument `status` is left out, as it is for
/// every other message.
pub fn fluent_arguments(args: &MessageArgs, status: Option<&str>) -> (r: Arguments)
    ensures
        args_of(r) == argument_map(args@, text_view(status)),
{
    let mut r = new_arguments();
    match args {
        MessageArgs::Empty => {},
        MessageArgs::Count { item, total } => {
            set_number(&mut r, "item", *item);
            set_number(&mut r, "total", *total);
        },
        MessageArgs::Staged { item, total, stage, inner } => {
            set_number(&mut r, "item", *item);
            set_number(&mut r, "total", *total);
            let label = stage.label();
            set_text(&mut r, "stage", label.as_str());
            set_text(&mut r, "max", "3");
            match status {
                Some(text) => {
                    set_text(&mut r, "status", text);
                },
                None => {},
            }
        },
        MessageArgs::Error { error } => {
            set_text(&mut r, "error", error.as_str());
        },
        MessageArgs::Pair { item_a, item_b } => {
            set_text(&mut r, "item_a", item_a.as_str());
            set_text(&mut r, "item_b", item_b.as_str());
        },
    }
    r
}

/// An exchange of the contents of two assets.
#[derive(Clone, Copy, Debug, PartialEq, Eq, Structural)]
pub enum Exchange {
    /// Each asset gets the contents of the other.
    Swap,
    /// The second asset gets the contents of the first.
    Copy,
}

/// The view of the outcome of an exchange: nothing, or the text of the
/// error.
pub open spec fn failure_view(outcome: Result<(), String>) -> Option<Seq<char>> {
    match outcome {
        Ok(_) => None,
        Err(error) => Some(error@),
    }
}

/// The message after an exchange between the assets `item_a` and `item_b`.
pub open spec fn exchange_reported(
    kind: Exchange,
    failure: Option<Seq<char>>,
    item_a: Seq<char>,
    item_b: Seq<char>,
) -> MessageView {
    match failure {
        None => MessageView {
            id: match kind {
                Exchange::Swap => MessageId::Swapped,
                Exchange::Copy => MessageId::Copied,
            },
            args: MessageArgsView::Pair { item_a, item_b },
        },
        Some(error) => MessageView {
            id: MessageId::FailedOpeningFile,
            args: MessageArgsView::Error { error },
        },
    }
}

/// The message for the status line after an exchange between two assets:
/// that they were swapped or copied, with both names, or that a file could
/// not be opened, with the text of the error.
pub fn exchange_message(kind: Exchange, outcome: Result<(), String>, item_a: &str, item_b: &str)
    -> (r: StatusMessage)
    ensures
        r@ == exchange_reported(kind, failure_view(outcome), item_a@, item_b@),
{
    match outcome {
        Ok(_) => {
            let id = match kind {
                Exchange::Swap => MessageId::Swapped,
                Exchange::Copy => MessageId::Copied,
            };
            StatusMessage {
                id,
                args: MessageArgs::Pair { item_a: item_a.to_owned(), item_b: item_b.to_owned() },
            }
        },
        Err(error) => StatusMessage { id: MessageId::FailedOpeningFile, args: MessageArgs::Error { error } },
    }
}

/// The message for a source file that could not be extracted.
///
/// Where not even the metadata of the file could be read, with the error
/// `metadata_error`, the message is the idle one with that error. Where
/// only the contents could not be read the message says that the file could
/// not be opened.
pub fn unreadable_source_message(metadata_error: Option<String>) -> (r: StatusMessage)
    ensures
        r@ == match metadata_error {
            Some(error) => MessageView {
                id: MessageId::Idling,
                args: MessageArgsView::Error { error: error@ },
            },
            None => plain_message(MessageId::FailedOpeningFile),
        },
{
    match metadata_error {
        Some(error) => StatusMessage { id: MessageId::Idling, args: MessageArgs::Error { error } },
        None => StatusMessage::plain(MessageId::FailedOpeningFile),
    }
}

} // verus!
