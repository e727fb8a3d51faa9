//! The concatenated-CSV input protocol: one text holding the persons, benefit units
//! and households tables, each introduced by a separator line.
use vstd::prelude::*;
use crate::text::{chars_of, string_of, text_eq, trim_bounds, trimmed};

verus! {

/// Which table the lines being read belong to.
#[derive(Debug, Clone, Copy, PartialEq, Eq, Structural)]
pub enum Section {
    /// Before the first separator line: such lines are skipped.
    Preamble,
    Persons,
    BenUnits,
    Households,
}

/// The section a line opens, if it is a separator line (`===PERSONS===`,
/// `===BENUNITS===` or `===HOUSEHOLDS===`, white space around it ignored).
pub open spec fn separator_of(line: Seq<char>) -> Option<Section> {
    let t = trimmed(line);
    if t == "===PERSONS==="@ {
        Some(Section::Persons)
    } else if t == "===BENUNITS==="@ {
        Some(Section::BenUnits)
    } else if t == "===HOUSEHOLDS==="@ {
        Some(Section::Households)
    } else {
        None
    }
}

/// The section in force after the first `n` lines.
pub open spec fn section_after(lines: Seq<Seq<char>>, n: nat) -> Section
    decreases n,
{
    if n == 0 || n > lines.len() {
        Section::Preamble
    } else {
        match separator_of(lines[n - 1]) {
            Some(s) => s,
            None => section_after(lines, (n - 1) as nat),
        }
    }
}

/// The text of one section among the first `n` lines: every line that is not a
/// separator and that comes while `which` is in force, each followed by a newline.
pub open spec fn section_text(lines: Seq<Seq<char>>, n: nat, which: Section) -> Seq<char>
    decreases n,
{
    if n == 0 || n > lines.len() {
        Seq::empty()
    } else {
        let prev = section_text(lines, (n - 1) as nat, which);
        if separator_of(lines[n - 1]) is None && section_after(lines, (n - 1) as nat) == which {
            prev + lines[n - 1] + seq!['\n']
        } else {
            prev
        }
    }
}

/// The three tables of the input, each as CSV text.
pub struct SectionedInput {
    pub persons: String,
    pub benunits: String,
    pub households: String,
}

/// A table that the input lacks.
#[derive(Debug, Clone, Copy, PartialEq, Eq, Structural)]
pub enum SectionError {
    /// No line came under `===PERSONS===`.
    MissingPersons,
    /// No line came under `===BENUNITS===`.
    MissingBenUnits,
    /// No line came under `===HOUSEHOLDS===`.
    MissingHouseholds,
}

/// The views of all lines.
pub open spec fn line_views(lines: Seq<String>) -> Seq<Seq<char>> {
    Seq::new(lines.len(), |i: int| lines[i]@)
}

/// The section a line opens, if it is a separator line.
pub fn separator(line: &str) -> (r: Option<Section>)
    ensures
        r == separator_of(line@),
{
    let cs = chars_of(line);
    let (i, k) = trim_bounds(&cs);
    let mut t: Vec<char> = Vec::new();
    let mut j: usize = i;
    while j < k
        invariant
            i <= j <= k <= cs@.len(),
            t@ == cs@.subrange(i as int, j as int),
        decreases k - j,
    {
        t.push(cs[j]);
        j = j + 1;
        assert(t@ =~= cs@.subrange(i as int, j as int));
    }
    let ts = string_of(&t);
    if text_eq(ts.as_str(), "===PERSONS===") {
        Some(Section::Persons)
    } else if text_eq(ts.as_str(), "===BENUNITS===") {
        Some(Section::BenUnits)
    } else if text_eq(ts.as_str(), "===HOUSEHOLDS===") {
        Some(Section::Households)
    } else {
        None
    }
}

/// Appends a line and a newline to a section's text.
fn append_line(buf: &mut String, line: &String)
    ensures
        final(buf)@ == old(buf)@ + line@ + seq!['\n'],
{
    buf.append(line.as_str());
    buf.push('\n');
}

/// Splits the lines of the concatenated input into its three tables. Lines before the
/// first separator are skipped; a separator switches the section until the next one;
/// each table must hold at least one line, checked in the order persons, benefit
/// units, households.
pub fn split_sections(lines: &Vec<String>) -> (r: Result<SectionedInput, SectionError>)
    ensures
        ({
            let ls = line_views(lines@);
            let p = section_text(ls, ls.len(), Section::Persons);
            let b = section_text(ls, ls.len(), Section::BenUnits);
            let h = section_text(ls, ls.len(), Section::Households);
            &&& (r == Err::<SectionedInput, SectionError>(SectionError::MissingPersons) <==> p.len() == 0)
            &&& (r == Err::<SectionedInput, SectionError>(SectionError::MissingBenUnits) <==> p.len() > 0
                && b.len() == 0)
            &&& (r == Err::<SectionedInput, SectionError>(SectionError::MissingHouseholds) <==> p.len()
                > 0 && b.len() > 0 && h.len() == 0)
            &&& (r matches Ok(x) ==> x.persons@ == p && x.benunits@ == b && x.households@ == h)
        }),
{
    let ghost ls = line_views(lines@);
    let mut persons = String::new();
    let mut benunits = String::new();
    let mut households = String::new();
    let mut current = Section::Preamble;
    let mut i: usize = 0;
    while i < lines.len()
        invariant
            ls == line_views(lines@),
            ls.len() == lines@.len(),
            i <= lines@.len(),
            current == section_after(ls, i as nat),
            persons@ == section_text(ls, i as nat, Section::Persons),
            benunits@ == section_text(ls, i as nat, Section::BenUnits),
            households@ == section_text(ls, i as nat, Section::Households),
        decreases lines@.len() - i,
    {
        assert(ls[i as int] == lines@[i as int]@);
        match separator(lines[i].as_str()) {
            Some(s) => {
                current = s;
            },
            None => match current {
                Section::Persons => append_line(&mut persons, &lines[i]),
                Section::BenUnits => append_line(&mut benunits, &lines[i]),
                Section::Households => append_line(&mut households, &lines[i]),
                Section::Preamble => {},
            },
        }
        i = i + 1;
    }
    if persons.as_str().is_empty() {
        return Err(SectionError::MissingPersons);
    }
    if benunits.as_str().is_empty() {
        return Err(SectionError::MissingBenUnits);
    }
    if households.as_str().is_empty() {
        return Err(SectionError::MissingHouseholds);
    }
    Ok(SectionedInput { persons, benunits, households })
}

} // verus!
