use vstd::prelude::*;
use vstd::utf8::encode_utf8;

use crate::term::{
    add_file, file_line_index, file_line_range, file_name, file_source, files_held, new_file_db,
};
use codespan_reporting::files::SimpleFiles;

verus! {

/// The bytes that a text occupies when stored as UTF-8; offsets count in these.
pub open spec fn bytes_of(text: Seq<char>) -> Seq<u8> {
    encode_utf8(text)
}

/// Byte offsets at which the lines of `text` begin: `0`, then one past every `\n`.
pub open spec fn line_starts_of(text: Seq<u8>) -> Seq<usize>
    decreases text.len(),
{
    if text.len() == 0 {
        seq![0usize]
    } else if text.last() == 10u8 {
        line_starts_of(text.drop_last()).push(text.len() as usize)
    } else {
        line_starts_of(text.drop_last())
    }
}

/// `starts` opens with `0`, rises strictly, and stays within `0..=len`.
pub open spec fn well_formed_starts(starts: Seq<usize>, len: nat) -> bool {
    &&& starts.len() >= 1
    &&& starts[0] == 0
    &&& forall|i: int, j: int| 0 <= i < j < starts.len() ==> starts[i] < starts[j]
    &&& forall|i: int| 0 <= i < starts.len() ==> starts[i] <= len
}

/// Line `line` of a table of line starts contains the byte offset `offset`.
pub open spec fn line_holds(starts: Seq<usize>, line: int, offset: int) -> bool {
    &&& 0 <= line < starts.len()
    &&& starts[line] <= offset
    &&& line + 1 < starts.len() ==> offset < starts[line + 1]
}

/// Where line `line` of `text` ends: where the next line starts, or at the end
/// of the text for the last line.
pub open spec fn line_end(text: Seq<u8>, line: int) -> int {
    if line + 1 < line_starts_of(text).len() {
        line_starts_of(text)[line + 1] as int
    } else {
        text.len() as int
    }
}

/// Offsets past the end of a text stand for its end.
pub open spec fn clamp_offset(offset: int, len: int) -> int {
    if offset <= len { offset } else { len }
}

/// The line starts of any text that fits in memory form a well-formed table.
pub proof fn lemma_line_starts_well_formed(text: Seq<u8>)
    requires
        text.len() <= usize::MAX,
    ensures
        well_formed_starts(line_starts_of(text), text.len()),
        line_starts_of(text).len() <= text.len() + 1,
    decreases text.len(),
{
    if text.len() > 0 {
        lemma_line_starts_well_formed(text.drop_last());
    }
}

/// A line holds at most one place in the table: the line of an offset is unique.
pub proof fn lemma_line_unique(starts: Seq<usize>, len: nat, a: int, b: int, offset: int)
    requires
        well_formed_starts(starts, len),
        line_holds(starts, a, offset),
        line_holds(starts, b, offset),
    ensures
        a == b,
{
    if a < b {
        assert(starts[a + 1] <= starts[b]) by {
            if a + 1 < b {
                assert(starts[a + 1] < starts[b]);
            }
        }
    } else if b < a {
        assert(starts[b + 1] <= starts[a]) by {
            if b + 1 < a {
                assert(starts[b + 1] < starts[a]);
            }
        }
    }
}

/// A file as a caller hands it over: its name and its text.
pub struct SourceFile {
    pub name: String,
    pub text: String,
}

/// Why a lookup in the registry failed.
#[derive(Debug, Clone, Copy, PartialEq, Eq, Structural)]
pub enum FileError {
    /// No file was registered under this handle.
    UnknownFile { handle: usize },
    /// The file has `count` lines and the line asked for is not among them.
    LineOutOfRange { given: usize, count: usize },
}

/// Named source texts in codespan's file database, each reached by the handle
/// that registering it returned.
pub struct FileRegistry {
    db: SimpleFiles<String, String>,
    count: usize,
}

impl FileRegistry {
    /// The registered files, in the order of their handles, as (name, text).
    pub closed spec fn view(&self) -> Seq<(Seq<char>, Seq<char>)> {
        files_held(self.db)
    }

    /// The count matches the database, and every text fits in memory.
    pub closed spec fn wf(&self) -> bool {
        &&& self.count == files_held(self.db).len()
        &&& forall|h: int|
            0 <= h < files_held(self.db).len() ==> {
                &&& #[trigger] bytes_of(files_held(self.db)[h].1).len() <= usize::MAX
                &&& line_starts_of(bytes_of(files_held(self.db)[h].1)).len() <= usize::MAX
            }
    }

    /// Byte length of the text under handle `h`.
    pub open spec fn text_len(&self, h: int) -> nat {
        bytes_of(self@[h].1).len()
    }

    /// Line starts of the text under handle `h`.
    pub open spec fn starts(&self, h: int) -> Seq<usize> {
        line_starts_of(bytes_of(self@[h].1))
    }

    pub fn new() -> (r: FileRegistry)
        ensures
            r.wf(),
            r@ == Seq::<(Seq<char>, Seq<char>)>::empty(),
    {
        FileRegistry { db: new_file_db(), count: 0 }
    }

    /// codespan's database holding exactly the registered files.
    pub(crate) fn files_db(&self) -> (r: &SimpleFiles<String, String>)
        ensures
            files_held(*r) == self@,
    {
        &self.db
    }

    /// Number of registered files; the handles are `0..count`.
    pub fn file_count(&self) -> (r: usize)
        requires
            self.wf(),
        ensures
            r == self@.len(),
    {
        self.count
    }

    /// Stores a file and returns its handle. A name may be registered again:
    /// the new file gets a handle of its own and the earlier one keeps its file.
    pub fn register(&mut self, name: String, text: String) -> (h: usize)
        requires
            old(self).wf(),
            old(self)@.len() < usize::MAX,
        ensures
            final(self).wf(),
            h == old(self)@.len(),
            final(self)@ == old(self)@.push((name@, text@)),
    {
        let len = text.as_str().as_bytes().len();
        let ghost t = text@;
        let h = add_file(&mut self.db, name, text);
        self.count = self.count + 1;
        assert forall|k: int| 0 <= k < files_held(self.db).len() implies {
            &&& #[trigger] bytes_of(files_held(self.db)[k].1).len() <= usize::MAX
            &&& line_starts_of(bytes_of(files_held(self.db)[k].1)).len() <= usize::MAX
        } by {
            if k < h {
                assert(files_held(self.db)[k] == old(self)@[k]);
            } else {
                assert(files_held(self.db)[k].1 == t);
                assert(len == bytes_of(t).len());
            }
        }
        h
    }

    /// Name of the file under `handle`.
    pub fn name(&self, handle: usize) -> (r: Result<&String, FileError>)
        ensures
            handle < self@.len() ==> (r is Ok && r->Ok_0@ == self@[handle as int].0),
            handle >= self@.len() ==> r == Err::<&String, FileError>(
                FileError::UnknownFile { handle },
            ),
    {
        match file_name(&self.db, handle) {
            Ok(name) => Ok(name),
            Err(_) => Err(FileError::UnknownFile { handle }),
        }
    }

    /// Text of the file under `handle`.
    pub fn text(&self, handle: usize) -> (r: Result<&String, FileError>)
        ensures
            handle < self@.len() ==> (r is Ok && r->Ok_0@ == self@[handle as int].1),
            handle >= self@.len() ==> r == Err::<&String, FileError>(
                FileError::UnknownFile { handle },
            ),
    {
        match file_source(&self.db, handle) {
            Ok(text) => Ok(text),
            Err(_) => Err(FileError::UnknownFile { handle }),
        }
    }

    /// Number of lines of the file under `handle`: one more than its newlines.
    /// It is one past the line of the text's end.
    pub fn line_count(&self, handle: usize) -> (r: Result<usize, FileError>)
        requires
            self.wf(),
        ensures
            handle < self@.len() ==> r == Ok::<usize, FileError>(
                self.starts(handle as int).len() as usize,
            ),
            handle >= self@.len() ==> r == Err::<usize, FileError>(
                FileError::UnknownFile { handle },
            ),
    {
        let text = match file_source(&self.db, handle) {
            Ok(text) => text,
            Err(_) => {
                return Err(FileError::UnknownFile { handle });
            },
        };
        let len = text.as_str().as_bytes().len();
        proof {
            assert(bytes_of(files_held(self.db)[handle as int].1).len() <= usize::MAX);
            lemma_line_starts_well_formed(bytes_of(self@[handle as int].1));
        }
        match file_line_index(&self.db, handle, len) {
            Ok(last) => {
                assert(last + 1 == self.starts(handle as int).len()) by {
                    let starts = self.starts(handle as int);
                    if last + 1 < starts.len() {
                        assert(starts[last + 1] <= len);
                    }
                }
                Ok(last + 1)
            },
            Err(_) => Err(FileError::UnknownFile { handle }),
        }
    }

    /// Line and byte column of `offset` in the file under `handle`, both from 0.
    /// An offset past the end of the text stands for the end. Columns count
    /// bytes; the column that codespan prints counts characters, from 1.
    pub fn offset_to_line_col(&self, handle: usize, offset: usize) -> (r: Result<
        (usize, usize),
        FileError,
    >)
        requires
            self.wf(),
        ensures
            handle >= self@.len() ==> r == Err::<(usize, usize), FileError>(
                FileError::UnknownFile { handle },
            ),
            handle < self@.len() ==> r is Ok,
            r matches Ok((line, col)) ==> {
                let o = clamp_offset(offset as int, self.text_len(handle as int) as int);
                &&& line_holds(self.starts(handle as int), line as int, o)
                &&& col == o - self.starts(handle as int)[line as int]
            },
    {
        let text = match file_source(&self.db, handle) {
            Ok(text) => text,
            Err(_) => {
                return Err(FileError::UnknownFile { handle });
            },
        };
        let len = text.as_str().as_bytes().len();
        proof {
            lemma_line_starts_well_formed(bytes_of(self@[handle as int].1));
        }
        let o = if offset <= len {
            offset
        } else {
            len
        };
        let line = match file_line_index(&self.db, handle, o) {
            Ok(line) => line,
            Err(_) => {
                return Err(FileError::UnknownFile { handle });
            },
        };
        match file_line_range(&self.db, handle, line) {
            Ok(range) => Ok((line, o - range.start)),
            Err(_) => Err(FileError::UnknownFile { handle }),
        }
    }

    /// Byte range `(start, end)` of line `line` in the file under `handle`; the
    /// range ends where the next line starts, or at the end of the text.
    pub fn line_range(&self, handle: usize, line: usize) -> (r: Result<(usize, usize), FileError>)
        requires
            self.wf(),
        ensures
            handle >= self@.len() ==> r == Err::<(usize, usize), FileError>(
                FileError::UnknownFile { handle },
            ),
            handle < self@.len() && line >= self.starts(handle as int).len() ==> r == Err::<
                (usize, usize),
                FileError,
            >(
                FileError::LineOutOfRange {
                    given: line,
                    count: self.starts(handle as int).len() as usize,
                },
            ),
            handle < self@.len() && line < self.starts(handle as int).len() ==> {
                &&& r is Ok
                &&& r->Ok_0.0 == self.starts(handle as int)[line as int]
                &&& r->Ok_0.1 == line_end(bytes_of(self@[handle as int].1), line as int)
            },
    {
        let count = match self.line_count(handle) {
            Ok(count) => count,
            Err(e) => {
                return Err(e);
            },
        };
        match file_line_range(&self.db, handle, line) {
            Ok(range) => Ok((range.start, range.end)),
            Err(_) => Err(FileError::LineOutOfRange { given: line, count }),
        }
    }

    /// Bytes of line `line` in the file under `handle`, its line break included.
    pub fn line_text(&self, handle: usize, line: usize) -> (r: Result<Vec<u8>, FileError>)
        requires
            self.wf(),
        ensures
            handle >= self@.len() ==> r == Err::<Vec<u8>, FileError>(
                FileError::UnknownFile { handle },
            ),
            handle < self@.len() && line >= self.starts(handle as int).len() ==> r == Err::<
                Vec<u8>,
                FileError,
            >(
                FileError::LineOutOfRange {
                    given: line,
                    count: self.starts(handle as int).len() as usize,
                },
            ),
            handle < self@.len() && line < self.starts(handle as int).len() ==> {
                &&& r is Ok
                &&& r->Ok_0@ == bytes_of(self@[handle as int].1).subrange(
                    self.starts(handle as int)[line as int] as int,
                    line_end(bytes_of(self@[handle as int].1), line as int),
                )
            },
    {
        let (start, end) = match self.line_range(handle, line) {
            Ok(range) => range,
            Err(e) => {
                return Err(e);
            },
        };
        let text = match file_source(&self.db, handle) {
            Ok(text) => text,
            Err(_) => {
                return Err(FileError::UnknownFile { handle });
            },
        };
        let bytes = text.as_str().as_bytes();
        proof {
            lemma_line_starts_well_formed(bytes@);
        }
        let mut out: Vec<u8> = Vec::new();
        let mut i: usize = start;
        while i < end
            invariant
                start <= i <= end <= bytes@.len(),
                out@ == bytes@.subrange(start as int, i as int),
            decreases end - i,
        {
            out.push(bytes[i]);
            i = i + 1;
            assert(out@ =~= bytes@.subrange(start as int, i as int));
        }
        Ok(out)
    }
}

/// Splitting an offset into line and column loses nothing: the start of the
/// returned line plus the returned column gives the offset back.
pub proof fn lemma_line_col_round_trip(
    reg: FileRegistry,
    handle: usize,
    offset: usize,
    line: usize,
    col: usize,
)
    requires
        reg.wf(),
        handle < reg@.len(),
        offset <= reg.text_len(handle as int),
        line_holds(reg.starts(handle as int), line as int, offset as int),
        col == offset - reg.starts(handle as int)[line as int],
    ensures
        reg.starts(handle as int)[line as int] + col == offset,
        forall|other: int|
            line_holds(reg.starts(handle as int), other, offset as int) ==> other == line,
{
    lemma_line_starts_well_formed(bytes_of(reg@[handle as int].1));
    assert forall|other: int|
        line_holds(reg.starts(handle as int), other, offset as int) implies other == line by {
        lemma_line_unique(
            reg.starts(handle as int),
            reg.text_len(handle as int),
            other,
            line as int,
            offset as int,
        );
    }
}

} // verus!
