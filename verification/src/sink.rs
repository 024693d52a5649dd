//! Where a trace line goes.
//!
//! A program keeps one [`WriteTarget`] for all its call sites, behind
//! whatever lock it uses, and replaces it with [`set_write_target`]. The
//! library never touches a logger or a writer itself: [`emit_line`] decides
//! what is to be done with a line under the current target and returns that
//! as an [`Emission`], which the program then carries out while it still
//! holds the target. A write that fails is the program's to report; nothing
//! here retries or buffers.

use vstd::prelude::*;
use vstd::string::*;

verus! {

/// The category under which trace lines reach the logger, so that log
/// processors can pick them out whatever the verbosity.
pub const LOG_TARGET: &'static str = "packet-trace";

/// The destination of trace lines: the logger, or a writer of type `W` that
/// the target owns.
pub enum WriteTarget<W> {
    Log,
    Write(W),
}

impl<W> Default for WriteTarget<W> {
    /// The target a program starts with.
    fn default() -> (target: Self)
        ensures
            target is Log,
    {
        WriteTarget::Log
    }
}

/// What is to be done with one trace line.
#[derive(Debug, PartialEq, Eq)]
pub enum Emission {
    /// Log `message` at trace severity under `category`.
    Log { category: &'static str, message: String },
    /// Write `text`, which ends the line, to the writer that the target
    /// holds, in one piece.
    Write { text: String },
}

/// An [`Emission`] as plain text.
pub enum EmissionView {
    Log { category: Seq<char>, message: Seq<char> },
    Write { text: Seq<char> },
}

impl EmissionView {
    /// The trace line that the emission carries, without its terminator.
    pub open spec fn line(self) -> Seq<char> {
        match self {
            EmissionView::Log { message, .. } => message,
            EmissionView::Write { text } => text.drop_last(),
        }
    }
}

impl View for Emission {
    type V = EmissionView;

    open spec fn view(&self) -> EmissionView {
        match *self {
            Emission::Log { category, message } => EmissionView::Log {
                category: category@,
                message: message@,
            },
            Emission::Write { text } => EmissionView::Write { text: text@ },
        }
    }
}

/// The target that is current once `wt` has been set over `current`: `wt`
/// itself, whatever `current` was.
pub open spec fn after_set<W>(current: WriteTarget<W>, wt: WriteTarget<W>) -> WriteTarget<W> {
    wt
}

/// What becomes of `line` under `target`: the logger gets the line as it is,
/// under [`LOG_TARGET`]; a writer gets the line and a newline.
pub open spec fn emission_of<W>(target: WriteTarget<W>, line: Seq<char>) -> EmissionView {
    match target {
        WriteTarget::Log => EmissionView::Log { category: LOG_TARGET@, message: line },
        WriteTarget::Write(_) => EmissionView::Write { text: line.push('\n') },
    }
}

/// Replaces the current target by `wt`. The target that was current is
/// dropped, and with it the writer it held.
pub fn set_write_target<W>(current: &mut WriteTarget<W>, wt: WriteTarget<W>)
    ensures
        *final(current) == after_set(*old(current), wt),
{
    *current = wt;
}

/// Decides what is to be done with one formatted line under `target`.
pub fn emit_line<W>(target: &WriteTarget<W>, line: String) -> (out: Emission)
    ensures
        out@ == emission_of(*target, line@),
{
    match target {
        WriteTarget::Log => Emission::Log { category: LOG_TARGET, message: line },
        WriteTarget::Write(_) => {
            proof {
                reveal_strlit("\n");
            }
            let mut text = line;
            text.append("\n");
            assert(text@ =~= line@.push('\n'));
            Emission::Write { text }
        },
    }
}

/// After a writer has been set, the target holds that writer and every line
/// goes to it, with its newline, and none to the logger; after the logger
/// has been set again, every line goes to the logger. What the target was
/// before does not matter.
pub proof fn lemma_sink_swap<W>(before: WriteTarget<W>, writer: W, line: Seq<char>)
    ensures
        after_set(before, WriteTarget::Write(writer)) == WriteTarget::Write(writer),
        emission_of(after_set(before, WriteTarget::Write(writer)), line) == (EmissionView::Write {
            text: line.push('\n'),
        }),
        emission_of(
            after_set(after_set(before, WriteTarget::Write(writer)), WriteTarget::Log),
            line,
        ) == (EmissionView::Log { category: LOG_TARGET@, message: line }),
{
}

} // verus!
