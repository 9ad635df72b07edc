use crate::diagnostics::map_entries;
use crate::diagnostics::DiagnosticsMap;
use crate::diagnostics::Findings;
use vstd::prelude::*;
use vstd::string::StringSliceAdditionalSpecFns;

verus! {

/// The stage of transformation at which the child wants a module.
#[derive(Debug, Clone, Copy, PartialEq, Eq, Hash, Structural)]
pub enum EqWAlizerASTFormat {
    RawForms,
    ConvertedForms,
    RawStub,
    ConvertedStub,
    ExpandedStub,
    ContractiveStub,
    CovariantStub,
    TransitiveStub,
}

/// A record that the child sends.
#[derive(Debug, PartialEq, Eq, Clone)]
pub enum MsgFromEqWAlizer {
    EnteringModule { module: String },
    GetAstBytes { module: String, format: EqWAlizerASTFormat },
    EqwalizingStart { module: String },
    EqwalizingDone { module: String },
    Dependencies { modules: Vec<String> },
    Done { diagnostics: DiagnosticsMap },
    /// A record whose tag is none of the above.
    Unknown,
}

/// A record of the child as mathematical values.
pub enum MsgFromView {
    EnteringModule { module: Seq<char> },
    GetAstBytes { module: Seq<char>, format: EqWAlizerASTFormat },
    EqwalizingStart { module: Seq<char> },
    EqwalizingDone { module: Seq<char> },
    Dependencies { modules: Seq<Seq<char>> },
    Done { diagnostics: Findings },
    Unknown,
}

impl View for MsgFromEqWAlizer {
    type V = MsgFromView;

    open spec fn view(&self) -> MsgFromView {
        match self {
            MsgFromEqWAlizer::EnteringModule { module } => MsgFromView::EnteringModule {
                module: module@,
            },
            MsgFromEqWAlizer::GetAstBytes { module, format } => MsgFromView::GetAstBytes {
                module: module@,
                format: *format,
            },
            MsgFromEqWAlizer::EqwalizingStart { module } => MsgFromView::EqwalizingStart {
                module: module@,
            },
            MsgFromEqWAlizer::EqwalizingDone { module } => MsgFromView::EqwalizingDone {
                module: module@,
            },
            MsgFromEqWAlizer::Dependencies { modules } => MsgFromView::Dependencies {
                modules: modules.deep_view(),
            },
            MsgFromEqWAlizer::Done { diagnostics } => MsgFromView::Done {
                diagnostics: map_entries(*diagnostics),
            },
            MsgFromEqWAlizer::Unknown => MsgFromView::Unknown,
        }
    }
}

/// A record that the driver sends.
#[derive(Debug, Clone, Copy, PartialEq, Eq, Structural)]
pub enum MsgToEqWAlizer {
    ELPEnteringModule,
    ELPExitingModule,
    GetAstBytesReply { ast_bytes_len: u32 },
    CannotCompleteRequest,
}

/// The byte that ends a record.
pub const NEWLINE: u8 = 10;

/// Why a line read from the child holds no record.
#[derive(Debug, Clone, Copy, PartialEq, Eq, Structural)]
pub enum FrameError {
    /// The child's output ended: nothing was read.
    EndOfInput,
    /// The child's output ended in the middle of a record.
    Unterminated,
}

/// A record as it goes over the wire: its text, then the newline.
pub open spec fn framed(record: Seq<u8>) -> Seq<u8> {
    record.push(NEWLINE)
}

/// A line is a record's frame: it ends with the newline and holds no other.
pub open spec fn is_frame(line: Seq<u8>) -> bool {
    &&& line.len() > 0
    &&& line.last() == NEWLINE
    &&& forall|i: int| 0 <= i < line.len() - 1 ==> line[i] != NEWLINE
}

/// What a line holds that was read up to and with the first newline, or up
/// to the end of the child's output where no newline came.
pub open spec fn unframed(line: Seq<u8>) -> Result<Seq<u8>, FrameError> {
    if line.len() == 0 {
        Err(FrameError::EndOfInput)
    } else if line.last() != NEWLINE {
        Err(FrameError::Unterminated)
    } else {
        Ok(line.drop_last())
    }
}

/// The bytes of a record on the wire.
pub fn frame(record: &str) -> (bytes: Vec<u8>)
    ensures
        bytes@ == framed(record.spec_bytes()),
{
    let mut bytes = record.as_bytes_vec();
    bytes.push(NEWLINE);
    bytes
}

/// The length of the record that a line holds. The record is the line's
/// first bytes, as many as the result says.
pub fn unframe(line: &[u8]) -> (r: Result<usize, FrameError>)
    ensures
        r matches Ok(n) ==> unframed(line@) == Ok::<Seq<u8>, FrameError>(line@.take(n as int)),
        r matches Err(e) ==> unframed(line@) == Err::<Seq<u8>, FrameError>(e),
{
    if line.len() == 0 {
        Err(FrameError::EndOfInput)
    } else if line[line.len() - 1] != NEWLINE {
        Err(FrameError::Unterminated)
    } else {
        assert(line@.take(line.len() - 1) =~= line@.drop_last());
        Ok(line.len() - 1)
    }
}

/// What is framed comes out of its frame unchanged, and a record without a
/// newline makes a frame.
pub proof fn lemma_frame_round_trip(record: Seq<u8>)
    ensures
        unframed(framed(record)) == Ok::<Seq<u8>, FrameError>(record),
        (forall|i: int| 0 <= i < record.len() ==> record[i] != NEWLINE) ==> is_frame(
            framed(record),
        ),
{
    assert(framed(record).drop_last() =~= record);
}

} // verus!
