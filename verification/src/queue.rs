//! The text of the queue file: the directory on the first line, then one
//! file name per line. Nothing is escaped, so a name with a line feed in it
//! does not come back as it was saved.

use crate::names::names_of;
use crate::names::Names;
use vstd::prelude::*;
use vstd::string::StringExecFns;

verus! {

/// The name of the queue file, relative to the directory the player is
/// started in.
pub const QUEUE_FILE: &'static str = ".rdaio_queue";

/// A line of the file: the text and a line feed.
pub open spec fn line(text: Seq<char>) -> Seq<char> {
    text.push('\n')
}

/// One line for each name, in order.
pub open spec fn lines_of(names: Names) -> Seq<char>
    decreases names.len(),
{
    if names.len() == 0 {
        Seq::empty()
    } else {
        lines_of(names.drop_last()) + line(names.last())
    }
}

/// The text of the queue file for a directory and its files.
pub open spec fn queue_text(directory: Seq<char>, files: Names) -> Seq<char> {
    line(directory) + lines_of(files)
}

/// A text read up to some point: the lines that a line feed has ended, and
/// what has been read of the line after them.
pub struct Scan {
    pub ended: Names,
    pub open: Seq<char>,
}

/// Reads `text` character by character. A line feed ends the line that is
/// open; any other character goes to its end.
pub open spec fn scan(text: Seq<char>) -> Scan
    decreases text.len(),
{
    if text.len() == 0 {
        Scan { ended: Seq::empty(), open: Seq::empty() }
    } else {
        let before = scan(text.drop_last());
        if text.last() == '\n' {
            Scan { ended: before.ended.push(before.open), open: Seq::empty() }
        } else {
            Scan { ended: before.ended, open: before.open.push(text.last()) }
        }
    }
}

/// The lines of a text. What follows the last line feed is a line too,
/// unless nothing follows it.
pub open spec fn lines(text: Seq<char>) -> Names {
    let read = scan(text);
    if read.open.len() > 0 {
        read.ended.push(read.open)
    } else {
        read.ended
    }
}

/// What a queue file with this text holds: the first line as the directory
/// and the lines after it as the files; nothing if it has no line.
pub open spec fn parsed(text: Seq<char>) -> Option<(Seq<char>, Names)> {
    let all = lines(text);
    if all.len() == 0 {
        None
    } else {
        Some((all[0], all.skip(1)))
    }
}

/// A queue as contracts see it.
pub open spec fn queue_view(queue: Option<(String, Vec<String>)>) -> Option<(Seq<char>, Names)> {
    match queue {
        None => None,
        Some((directory, files)) => Some((directory@, names_of(files@))),
    }
}

/// Whether no name holds a line feed.
pub open spec fn single_lines(names: Names) -> bool {
    forall|i: int| 0 <= i < names.len() ==> !(#[trigger] names[i]).contains('\n')
}

/// Reading on through a text without a line feed adds it to the open line.
proof fn lemma_scan_plain(before: Seq<char>, text: Seq<char>)
    requires
        !text.contains('\n'),
    ensures
        scan(before + text) == (Scan {
            ended: scan(before).ended,
            open: scan(before).open + text,
        }),
    decreases text.len(),
{
    if text.len() == 0 {
        assert(before + text =~= before);
        assert(scan(before).open + text =~= scan(before).open);
    } else {
        let shorter = text.drop_last();
        assert(text.last() == text[text.len() - 1]);
        assert(text.contains(text.last()));
        assert forall|c: char| shorter.contains(c) implies text.contains(c) by {
            let i = choose|i: int| 0 <= i < shorter.len() && shorter[i] == c;
            assert(text[i] == c);
        }
        lemma_scan_plain(before, shorter);
        assert((before + text).drop_last() =~= before + shorter);
        assert((before + text).last() == text.last());
        assert((scan(before).open + shorter).push(text.last()) =~= scan(before).open + text);
    }
}

/// Reading on through a line ends that line.
proof fn lemma_scan_line(before: Seq<char>, text: Seq<char>)
    requires
        !text.contains('\n'),
        scan(before).open.len() == 0,
    ensures
        scan(before + line(text)) == (Scan {
            ended: scan(before).ended.push(text),
            open: Seq::empty(),
        }),
{
    lemma_scan_plain(before, text);
    assert((before + line(text)).drop_last() =~= before + text);
    assert((before + line(text)).last() == '\n');
    assert(scan(before).open + text =~= text);
}

/// Reading on through the lines of some names ends one line for each.
proof fn lemma_scan_lines(before: Seq<char>, names: Names)
    requires
        single_lines(names),
        scan(before).open.len() == 0,
    ensures
        scan(before + lines_of(names)) == (Scan {
            ended: scan(before).ended + names,
            open: Seq::empty(),
        }),
    decreases names.len(),
{
    if names.len() == 0 {
        assert(before + lines_of(names) =~= before);
        assert(scan(before).ended + names =~= scan(before).ended);
        assert(scan(before).open =~= Seq::empty());
    } else {
        let earlier = names.drop_last();
        assert(single_lines(earlier)) by {
            assert forall|i: int| 0 <= i < earlier.len() implies !(#[trigger] earlier[i]).contains(
                '\n',
            ) by {
                assert(earlier[i] == names[i]);
            }
        }
        lemma_scan_lines(before, earlier);
        assert(names.last() == names[names.len() - 1]);
        lemma_scan_line(before + lines_of(earlier), names.last());
        assert(before + lines_of(names) =~= (before + lines_of(earlier)) + line(names.last()));
        assert((scan(before).ended + earlier).push(names.last()) =~= scan(before).ended + names);
    }
}

/// A queue that is saved and loaded again comes back as it was, whenever
/// neither the directory nor a file name holds a line feed. This holds for a
/// queue without files too.
pub proof fn lemma_queue_round_trip(directory: Seq<char>, files: Names)
    requires
        !directory.contains('\n'),
        single_lines(files),
    ensures
        parsed(queue_text(directory, files)) == Some((directory, files)),
{
    let nothing = Seq::<char>::empty();
    lemma_scan_line(nothing, directory);
    assert(nothing + line(directory) =~= line(directory));
    lemma_scan_lines(line(directory), files);
    let all = lines(queue_text(directory, files));
    assert(all =~= seq![directory] + files);
    assert(all.skip(1) =~= files);
}

/// Adds one character at the end of a string with `String::push`, which is
/// documented to append the given character to the end of the string.
#[verifier::external_body]
fn push_char(text: &mut String, c: char)
    ensures
        final(text)@ == old(text)@.push(c),
{
    text.push(c);
}

/// The text to write to the queue file for `directory` and `files`.
pub fn save_queue(files: &Vec<String>, directory: &str) -> (contents: String)
    ensures
        contents@ == queue_text(directory@, names_of(files@)),
{
    proof {
        reveal_strlit("\n");
    }
    let mut contents = String::new();
    contents.append(directory);
    contents.append("\n");
    proof {
        assert("\n"@ =~= seq!['\n']);
        assert(contents@ =~= line(directory@));
        assert(names_of(files@).take(0) =~= Seq::<Seq<char>>::empty());
        assert(contents@ =~= line(directory@) + lines_of(names_of(files@).take(0)));
    }
    let mut i: usize = 0;
    while i < files.len()
        invariant
            i <= files.len(),
            "\n"@ == seq!['\n'],
            contents@ == line(directory@) + lines_of(names_of(files@).take(i as int)),
        decreases files.len() - i,
    {
        proof {
            let upto = names_of(files@).take(i + 1);
            assert(upto.drop_last() =~= names_of(files@).take(i as int));
            assert(upto.last() == files@[i as int]@);
        }
        let ghost before = contents@;
        contents.append(files[i].as_str());
        contents.append("\n");
        proof {
            assert(contents@ =~= before + line(files@[i as int]@));
            assert(contents@ =~= line(directory@) + lines_of(names_of(files@).take(i + 1)));
        }
        i += 1;
    }
    proof {
        assert(names_of(files@).take(files.len() as int) =~= names_of(files@));
    }
    contents
}

/// The queue that the queue file holds. `None` stands for a file that is not
/// there, and there is no saved queue then, nor in a file without a line.
pub fn load_queue(contents: Option<&str>) -> (queue: Option<(String, Vec<String>)>)
    ensures
        queue_view(queue) == match contents {
            None => None,
            Some(text) => parsed(text@),
        },
{
    let text = match contents {
        None => {
            return None;
        },
        Some(text) => text,
    };
    let mut ended: Vec<String> = Vec::new();
    let mut open = String::new();
    proof {
        assert(text@.take(0) =~= Seq::<char>::empty());
        assert(names_of(ended@) =~= scan(text@.take(0)).ended);
    }
    for c in it: text.chars()
        invariant
            it.seq() == text@,
            names_of(ended@) == scan(text@.take(it.index() as int)).ended,
            open@ == scan(text@.take(it.index() as int)).open,
    {
        proof {
            let upto = text@.take(it.index() + 1);
            assert(upto.drop_last() =~= text@.take(it.index() as int));
            assert(upto.last() == c);
            assert(names_of(ended@.push(open)) =~= names_of(ended@).push(open@));
        }
        if c == '\n' {
            ended.push(open);
            open = String::new();
        } else {
            push_char(&mut open, c);
        }
    }
    proof {
        assert(text@.take(text@.len() as int) =~= text@);
        assert(names_of(ended@.push(open)) =~= names_of(ended@).push(open@));
    }
    if !open.as_str().is_empty() {
        ended.push(open);
    }
    if ended.len() == 0 {
        None
    } else {
        let ghost all = names_of(ended@);
        let directory = ended.remove(0);
        proof {
            assert(names_of(ended@) =~= all.skip(1));
        }
        Some((directory, ended))
    }
}

} // verus!
