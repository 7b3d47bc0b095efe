//! Line codec for the persisted task file: each line is a fixed prefix that
//! names a section, followed by the task's title.

use vstd::prelude::*;

verus! {

/// The two task groupings a line can belong to.
#[derive(Clone, Copy, PartialEq, Eq, Structural, Debug)]
pub enum Section {
    Pending,
    Done,
}

/// The line prefix that marks a pending task.
pub open spec fn pending_prefix() -> Seq<char> {
    "TODO: "@
}

/// The line prefix that marks a done task.
pub open spec fn done_prefix() -> Seq<char> {
    "DONE: "@
}

/// The prefix that encodes the given section.
pub open spec fn spec_prefix(section: Section) -> Seq<char> {
    match section {
        Section::Pending => pending_prefix(),
        Section::Done => done_prefix(),
    }
}

/// A task line is the section's prefix followed by the title.
pub open spec fn spec_encode(section: Section, title: Seq<char>) -> Seq<char> {
    spec_prefix(section) + title
}

/// Decoding recognizes exactly the two fixed six-character prefixes; any
/// other line is rejected.
pub open spec fn spec_decode(line: Seq<char>) -> Option<(Section, Seq<char>)> {
    if line.len() >= 6 && line.subrange(0, 6) == pending_prefix() {
        Some((Section::Pending, line.subrange(6, line.len() as int)))
    } else if line.len() >= 6 && line.subrange(0, 6) == done_prefix() {
        Some((Section::Done, line.subrange(6, line.len() as int)))
    } else {
        None
    }
}

/// Serializes one task record back to its file line.
pub fn encode_item(section: Section, title: &str) -> (r: String)
    ensures
        r@ == spec_encode(section, title@),
{
    let mut line = match section {
        Section::Pending => String::from_str("TODO: "),
        Section::Done => String::from_str("DONE: "),
    };
    line.append(title);
    line
}

/// Parses one file line into its section tag and title, or rejects it.
pub fn parse_item(line: &str) -> (r: Option<(Section, String)>)
    ensures
        match r {
            Some(p) => spec_decode(line@) == Some::<(Section, Seq<char>)>((p.0, p.1@)),
            None => spec_decode(line@) is None,
        },
{
    proof {
        reveal_strlit("TODO: ");
        reveal_strlit("DONE: ");
    }
    let n = line.unicode_len();
    if n < 6 {
        return None;
    }
    let c0 = line.get_char(0);
    let c1 = line.get_char(1);
    let c2 = line.get_char(2);
    let c3 = line.get_char(3);
    let c4 = line.get_char(4);
    let c5 = line.get_char(5);
    if c0 == 'T' && c1 == 'O' && c2 == 'D' && c3 == 'O' && c4 == ':' && c5 == ' ' {
        proof {
            assert(line@.subrange(0, 6) =~= pending_prefix());
        }
        let title = String::from_str(line.substring_char(6, n));
        Some((Section::Pending, title))
    } else if c0 == 'D' && c1 == 'O' && c2 == 'N' && c3 == 'E' && c4 == ':' && c5 == ' ' {
        proof {
            assert(line@.subrange(0, 6) =~= done_prefix());
            assert(line@.subrange(0, 6)[0] == 'D');
            assert(line@.subrange(0, 6) != pending_prefix());
        }
        let title = String::from_str(line.substring_char(6, n));
        Some((Section::Done, title))
    } else {
        proof {
            assert(line@.subrange(0, 6) != pending_prefix()) by {
                if line@.subrange(0, 6) == pending_prefix() {
                    assert(line@.subrange(0, 6)[0] == line@[0]);
                    assert(line@.subrange(0, 6)[1] == line@[1]);
                    assert(line@.subrange(0, 6)[2] == line@[2]);
                    assert(line@.subrange(0, 6)[3] == line@[3]);
                    assert(line@.subrange(0, 6)[4] == line@[4]);
                    assert(line@.subrange(0, 6)[5] == line@[5]);
                }
            }
            assert(line@.subrange(0, 6) != done_prefix()) by {
                if line@.subrange(0, 6) == done_prefix() {
                    assert(line@.subrange(0, 6)[0] == line@[0]);
                    assert(line@.subrange(0, 6)[1] == line@[1]);
                    assert(line@.subrange(0, 6)[2] == line@[2]);
                    assert(line@.subrange(0, 6)[3] == line@[3]);
                    assert(line@.subrange(0, 6)[4] == line@[4]);
                    assert(line@.subrange(0, 6)[5] == line@[5]);
                }
            }
        }
        None
    }
}

/// A rejected load: the 1-based number of the first ill-formed line.
#[derive(Clone, Copy, PartialEq, Eq, Structural, Debug)]
pub struct ParseError {
    pub line_number: usize,
}

/// Every line of the file decodes as a task record.
pub open spec fn all_lines_ok(lines: Seq<Seq<char>>) -> bool {
    forall|i: int| 0 <= i < lines.len() ==> spec_decode(lines[i]) is Some
}

/// The titles of the lines that decode into `section`, in file order.
pub open spec fn section_titles(lines: Seq<Seq<char>>, section: Section) -> Seq<Seq<char>>
    decreases lines.len(),
{
    if lines.len() == 0 {
        Seq::<Seq<char>>::empty()
    } else {
        let init = section_titles(lines.drop_last(), section);
        match spec_decode(lines.last()) {
            Some(p) => if p.0 == section {
                init.push(p.1)
            } else {
                init
            },
            None => init,
        }
    }
}

/// Splits a file's lines into the pending and done titles, each in file
/// order, or rejects the whole file at its first ill-formed line, reported
/// by its 1-based number. Nothing is skipped: the load succeeds exactly
/// when every line decodes.
pub fn load_lines(lines: &Vec<String>) -> (r: Result<(Vec<String>, Vec<String>), ParseError>)
    ensures
        match r {
            Ok(split) => ({
                &&& all_lines_ok(lines.deep_view())
                &&& split.0.deep_view() == section_titles(lines.deep_view(), Section::Pending)
                &&& split.1.deep_view() == section_titles(lines.deep_view(), Section::Done)
            }),
            Err(e) => ({
                &&& 1 <= e.line_number <= lines.deep_view().len()
                &&& spec_decode(lines.deep_view()[e.line_number - 1]) is None
                &&& forall|i: int|
                    0 <= i < e.line_number - 1 ==> spec_decode(lines.deep_view()[i]) is Some
            }),
        },
{
    let mut tasks: Vec<String> = Vec::new();
    let mut dones: Vec<String> = Vec::new();
    let mut index: usize = 0;
    while index < lines.len()
        invariant
            index <= lines@.len(),
            forall|i: int| 0 <= i < index ==> spec_decode(lines.deep_view()[i]) is Some,
            tasks.deep_view() == section_titles(
                lines.deep_view().take(index as int),
                Section::Pending,
            ),
            dones.deep_view() == section_titles(
                lines.deep_view().take(index as int),
                Section::Done,
            ),
        decreases lines@.len() - index,
    {
        match parse_item(lines[index].as_str()) {
            Some((section, title)) => {
                match section {
                    Section::Pending => tasks.push(title),
                    Section::Done => dones.push(title),
                }
            },
            None => {
                return Err(ParseError { line_number: index + 1 });
            },
        }
        proof {
            let dv = lines.deep_view();
            assert(dv.take(index + 1).drop_last() =~= dv.take(index as int));
            assert(dv.take(index + 1).last() == dv[index as int]);
            assert(tasks.deep_view() =~= section_titles(dv.take(index + 1), Section::Pending));
            assert(dones.deep_view() =~= section_titles(dv.take(index + 1), Section::Done));
        }
        index += 1;
    }
    proof {
        assert(lines.deep_view().take(lines@.len() as int) =~= lines.deep_view());
    }
    Ok((tasks, dones))
}

/// The file text for one section: each title encoded and newline-terminated,
/// in order.
pub open spec fn render_section(titles: Seq<Seq<char>>, section: Section) -> Seq<char>
    decreases titles.len(),
{
    if titles.len() == 0 {
        Seq::<char>::empty()
    } else {
        render_section(titles.drop_last(), section) + spec_encode(section, titles.last()) + "\n"@
    }
}

/// The whole persisted file: all pending lines, then all done lines, with
/// no separation and nothing trailing.
pub open spec fn spec_render_file(tasks: Seq<Seq<char>>, dones: Seq<Seq<char>>) -> Seq<char> {
    render_section(tasks, Section::Pending) + render_section(dones, Section::Done)
}

/// Appends one section's encoded lines to the output text.
fn append_section(out: &mut String, titles: &Vec<String>, section: Section)
    ensures
        final(out)@ == old(out)@ + render_section(titles.deep_view(), section),
{
    let ghost base = out@;
    let mut i: usize = 0;
    proof {
        assert(out@ =~= base + render_section(titles.deep_view().take(0), section));
    }
    while i < titles.len()
        invariant
            i <= titles@.len(),
            out@ == base + render_section(titles.deep_view().take(i as int), section),
        decreases titles@.len() - i,
    {
        let line = encode_item(section, titles[i].as_str());
        out.append(line.as_str());
        out.append("\n");
        proof {
            let dv = titles.deep_view();
            assert(dv.take(i + 1).drop_last() =~= dv.take(i as int));
            assert(dv.take(i + 1).last() == dv[i as int]);
            assert(out@ =~= base + render_section(dv.take(i + 1), section));
        }
        i += 1;
    }
    proof {
        assert(titles.deep_view().take(titles@.len() as int) =~= titles.deep_view());
    }
}

/// Serializes the store back to the file's full text: pending entries first
/// in their current order, then done entries, each re-prefixed on its own
/// line.
pub fn save_lines(tasks: &Vec<String>, dones: &Vec<String>) -> (r: String)
    ensures
        r@ == spec_render_file(tasks.deep_view(), dones.deep_view()),
{
    let mut out = String::new();
    append_section(&mut out, tasks, Section::Pending);
    append_section(&mut out, dones, Section::Done);
    proof {
        assert(out@ =~= spec_render_file(tasks.deep_view(), dones.deep_view()));
    }
    out
}

/// Law: decoding an encoded record gives back exactly the section and title
/// that were encoded, for any title free of embedded newlines.
pub proof fn lemma_codec_round_trip(section: Section, title: Seq<char>)
    requires
        forall|i: int| 0 <= i < title.len() ==> title[i] != '\n',
    ensures
        spec_decode(spec_encode(section, title)) == Some((section, title)),
{
    reveal_strlit("TODO: ");
    reveal_strlit("DONE: ");
    let line = spec_encode(section, title);
    assert(line.subrange(0, 6) =~= spec_prefix(section));
    assert(line.subrange(6, line.len() as int) =~= title);
    if section is Done {
        assert(line.subrange(0, 6) != pending_prefix()) by {
            assert(line.subrange(0, 6)[0] == 'D');
        }
    }
}

} // verus!
