use crate::codec::FrameError;
use vstd::prelude::*;

verus! {

/// A frame that failed, with the path of the file that could not be read,
/// decoded, encoded or written.
#[derive(Debug)]
pub enum FrameFailure {
    /// The source frame could not be read or is not a valid image.
    Load(String),
    /// The resized frame could not be encoded or written.
    Save(String),
}

/// What a batch as a whole failed with.
#[derive(Debug)]
pub enum BatchError {
    /// The source directory could not be listed; the text gives the cause.
    DirectoryRead(String),
    /// One or more frames failed; the text lists each failure on a line.
    Aggregate(String),
}

/// The line that reports one failed frame.
pub open spec fn failure_message(f: FrameFailure) -> Seq<char> {
    match f {
        FrameFailure::Load(p) => "Failed to load image: "@ + p@,
        FrameFailure::Save(p) => "Failed to save upscaled frame: "@ + p@,
    }
}

/// The report lines of a list of failures.
pub open spec fn failure_messages(fs: Seq<FrameFailure>) -> Seq<Seq<char>> {
    fs.map_values(|f: FrameFailure| failure_message(f))
}

/// The lines joined with a newline between each two.
pub open spec fn joined(lines: Seq<Seq<char>>) -> Seq<char>
    decreases lines.len(),
{
    if lines.len() == 0 {
        Seq::empty()
    } else if lines.len() == 1 {
        lines[0]
    } else {
        joined(lines.drop_last()) + seq!['\n'] + lines.last()
    }
}

/// The outcome of a batch whose frames failed with `fs`: success when none did.
pub open spec fn batch_outcome(fs: Seq<FrameFailure>) -> Result<(), Seq<char>> {
    if fs.len() == 0 {
        Ok(())
    } else {
        Err(joined(failure_messages(fs)))
    }
}

/// The number of line breaks in a text.
pub open spec fn line_breaks(s: Seq<char>) -> nat {
    s.filter(|ch: char| ch == '\n').len()
}

/// The path that a failure names.
pub open spec fn failure_path(f: FrameFailure) -> Seq<char> {
    match f {
        FrameFailure::Load(p) => p@,
        FrameFailure::Save(p) => p@,
    }
}

/// A batch in which `k > 0` frames failed ends in an error whose text has
/// exactly `k` lines, one for each failure, as long as no path holds a line break.
pub proof fn lemma_one_line_per_failure(fs: Seq<FrameFailure>)
    requires
        fs.len() > 0,
        forall|i: int| 0 <= i < fs.len() ==> !(#[trigger] failure_path(fs[i])).contains('\n'),
    ensures
        batch_outcome(fs) matches Err(m) && line_breaks(m) + 1 == fs.len(),
{
    let lines = failure_messages(fs);
    assert forall|i: int| 0 <= i < lines.len() implies line_breaks(#[trigger] lines[i]) == 0 by {
        lemma_message_single_line(fs[i]);
    }
    lemma_joined_line_breaks(lines);
}

proof fn lemma_no_break(s: Seq<char>)
    requires
        !s.contains('\n'),
    ensures
        line_breaks(s) == 0,
    decreases s.len(),
{
    reveal(Seq::filter);
    if s.len() > 0 {
        let rest = s.drop_last();
        assert(!rest.contains('\n')) by {
            if rest.contains('\n') {
                let i = choose|i: int| 0 <= i < rest.len() && rest[i] == '\n';
                assert(s[i] == '\n');
            }
        }
        lemma_no_break(rest);
        assert(s[s.len() - 1] != '\n');
    }
}

proof fn lemma_message_single_line(f: FrameFailure)
    requires
        !failure_path(f).contains('\n'),
    ensures
        line_breaks(failure_message(f)) == 0,
{
    let pred = |ch: char| ch == '\n';
    reveal_strlit("Failed to load image: ");
    reveal_strlit("Failed to save upscaled frame: ");
    let prefix = match f {
        FrameFailure::Load(_) => "Failed to load image: "@,
        FrameFailure::Save(_) => "Failed to save upscaled frame: "@,
    };
    assert(!prefix.contains('\n'));
    lemma_no_break(prefix);
    lemma_no_break(failure_path(f));
    Seq::filter_distributes_over_add(prefix, failure_path(f), pred);
    assert(failure_message(f) == prefix + failure_path(f));
}

proof fn lemma_joined_line_breaks(lines: Seq<Seq<char>>)
    requires
        lines.len() > 0,
        forall|i: int| 0 <= i < lines.len() ==> line_breaks(#[trigger] lines[i]) == 0,
    ensures
        line_breaks(joined(lines)) + 1 == lines.len(),
    decreases lines.len(),
{
    let pred = |ch: char| ch == '\n';
    if lines.len() > 1 {
        let rest = lines.drop_last();
        assert forall|i: int| 0 <= i < rest.len() implies line_breaks(#[trigger] rest[i]) == 0 by {
            assert(rest[i] == lines[i]);
        }
        lemma_joined_line_breaks(rest);
        let head = joined(rest) + seq!['\n'];
        Seq::filter_distributes_over_add(joined(rest), seq!['\n'], pred);
        Seq::filter_distributes_over_add(head, lines.last(), pred);
        reveal(Seq::filter);
        assert(seq!['\n'].filter(pred) =~= seq!['\n']) by {
            assert(seq!['\n'].drop_last() =~= Seq::<char>::empty());
        }
        assert(line_breaks(lines.last()) == 0);
    }
}

impl FrameFailure {
    /// The line that reports this failure.
    pub fn message(&self) -> (r: String)
        ensures
            r@ == failure_message(*self),
    {
        match self {
            FrameFailure::Load(p) => String::from_str("Failed to load image: ").concat(p.as_str()),
            FrameFailure::Save(p) => String::from_str("Failed to save upscaled frame: ").concat(
                p.as_str(),
            ),
        }
    }

    /// The failure of a frame whose processing ended in `err`: a decoding
    /// failure names the source file, an encoding failure the destination.
    pub fn from_frame_error(err: FrameError, source: &str, destination: &str) -> (r: FrameFailure)
        ensures
            match (err, r) {
                (FrameError::Decode, FrameFailure::Load(p)) => p@ == source@,
                (FrameError::Encode, FrameFailure::Save(p)) => p@ == destination@,
                _ => false,
            },
    {
        match err {
            FrameError::Decode => FrameFailure::Load(String::from_str(source)),
            FrameError::Encode => FrameFailure::Save(String::from_str(destination)),
        }
    }
}

impl BatchError {
    /// The text that reports this error.
    pub fn message(&self) -> (r: String)
        ensures
            r@ == (match self {
                BatchError::DirectoryRead(cause) => "Failed to read frames directory: "@ + cause@,
                BatchError::Aggregate(m) => m@,
            }),
    {
        match self {
            BatchError::DirectoryRead(cause) => String::from_str("Failed to read frames directory: ").concat(
                cause.as_str(),
            ),
            BatchError::Aggregate(m) => m.clone(),
        }
    }
}

/// Decides a batch from the failures that its frames reported: success when
/// there are none, else one error whose text lists every failure, one a line,
/// in the order given.
pub fn aggregate(failures: &Vec<FrameFailure>) -> (r: Result<(), BatchError>)
    ensures
        match batch_outcome(failures@) {
            Ok(()) => r is Ok,
            Err(m) => r matches Err(BatchError::Aggregate(t)) && t@ == m,
        },
{
    if failures.len() == 0 {
        return Ok(());
    }
    let mut text = failures[0].message();
    assert(failure_messages(failures@.subrange(0, 1)) =~= seq![failure_message(failures@[0])]);
    let mut i: usize = 1;
    while i < failures.len()
        invariant
            1 <= i <= failures@.len(),
            text@ == joined(failure_messages(failures@.subrange(0, i as int))),
        decreases failures.len() - i,
    {
        let line = failures[i].message();
        text.append("\n");
        text.append(line.as_str());
        proof {
            reveal_strlit("\n");
            let prev = failure_messages(failures@.subrange(0, i as int));
            let next = failure_messages(failures@.subrange(0, i + 1));
            assert(next.drop_last() =~= prev);
            assert(next.last() == failure_message(failures@[i as int]));
            assert("\n"@ =~= seq!['\n']);
        }
        i = i + 1;
    }
    assert(failures@.subrange(0, i as int) =~= failures@);
    Err(BatchError::Aggregate(text))
}

} // verus!
