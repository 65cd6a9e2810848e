use vstd::prelude::*;
use vstd::string::StringExecFns;
use crate::model::{AttrSpecView, AttributeSpec, EntrySchema, EntrySchemaView};
use crate::strings::{join, join_strings};

verus! {

/// Options of the character-separated output: whether a metadata row
/// follows the header, and which language the labels were extracted for (a
/// present `label_lang` selects labels over bare names for the header).
pub struct CsvOptions {
    pub include_metadata_row: bool,
    pub label_lang: Option<String>,
    pub metadata_lang: Option<String>,
}

/// Options of the spreadsheet output: whether a metadata row follows the
/// header, and whether header cells carry labels instead of bare names.
pub struct XlsxOptions {
    pub include_metadata_row: bool,
    pub use_labels: bool,
}

/// Header cell of one attribute: its label when labels are requested and
/// present, its dotted name otherwise.
pub open spec fn header_cell(a: AttrSpecView, use_labels: bool) -> Seq<char> {
    if use_labels {
        match a.label {
            Some(l) => l,
            None => a.name,
        }
    } else {
        a.name
    }
}

/// Metadata fragments of one attribute, in fixed order; absent fields
/// contribute nothing.
pub open spec fn meta_parts(a: AttrSpecView) -> Seq<Seq<char>> {
    let p0 = Seq::<Seq<char>>::empty();
    let p1 = if a.required {
        p0.push("required"@)
    } else {
        p0
    };
    let p2 = match a.attr_type {
        Some(t) => p1.push("type="@ + t),
        None => p1,
    };
    let p3 = match a.format {
        Some(f) => p2.push("format="@ + f),
        None => p2,
    };
    let p4 = match a.unit {
        Some(u) => p3.push("unit="@ + u),
        None => p3,
    };
    let p5 = match a.cardinality {
        Some(c) => p4.push("cardinality="@ + c),
        None => p4,
    };
    match a.entry_values {
        Some(vs) => p5.push("values="@ + join(vs, "|"@)),
        None => p5,
    }
}

/// Metadata cell of one attribute: its fragments joined with "; ".
pub open spec fn meta_cell(a: AttrSpecView) -> Seq<char> {
    join(meta_parts(a), "; "@)
}

/// The header row, cell by cell.
pub open spec fn header_row(attrs: Seq<AttrSpecView>, use_labels: bool) -> Seq<Seq<char>> {
    attrs.map_values(|a: AttrSpecView| header_cell(a, use_labels))
}

/// The metadata row, cell by cell.
pub open spec fn meta_row(attrs: Seq<AttrSpecView>) -> Seq<Seq<char>> {
    attrs.map_values(|a: AttrSpecView| meta_cell(a))
}

/// The whole character-separated document: a comment line carrying the
/// SAID, the comma-joined header row, and, when requested, the comma-joined
/// metadata row, each line newline-terminated.
pub open spec fn csv_text(s: EntrySchemaView, include_meta: bool, use_labels: bool) -> Seq<char> {
    let head = "# oca_bundle_said="@ + s.said + "\n"@ + join(
        header_row(s.attributes, use_labels),
        ","@,
    ) + "\n"@;
    if include_meta {
        head + join(meta_row(s.attributes), ","@) + "\n"@
    } else {
        head
    }
}

/// Metadata cell of one attribute, rendered.
fn meta_cell_text(a: &AttributeSpec) -> (r: String)
    ensures
        r@ == meta_cell(a@),
{
    let mut parts: Vec<String> = Vec::new();
    let ghost p0 = Seq::<Seq<char>>::empty();
    assert(parts.deep_view() =~= p0);
    if a.required {
        parts.push(String::from_str("required"));
    }
    let ghost p1 = if a@.required { p0.push("required"@) } else { p0 };
    assert(parts.deep_view() =~= p1);
    if let Some(t) = &a.attr_type {
        let mut s = String::from_str("type=");
        s.append(t.as_str());
        parts.push(s);
    }
    let ghost p2 = match a@.attr_type { Some(t) => p1.push("type="@ + t), None => p1 };
    assert(parts.deep_view() =~= p2);
    if let Some(f) = &a.format {
        let mut s = String::from_str("format=");
        s.append(f.as_str());
        parts.push(s);
    }
    let ghost p3 = match a@.format { Some(f) => p2.push("format="@ + f), None => p2 };
    assert(parts.deep_view() =~= p3);
    if let Some(u) = &a.unit {
        let mut s = String::from_str("unit=");
        s.append(u.as_str());
        parts.push(s);
    }
    let ghost p4 = match a@.unit { Some(u) => p3.push("unit="@ + u), None => p3 };
    assert(parts.deep_view() =~= p4);
    if let Some(c) = &a.cardinality {
        let mut s = String::from_str("cardinality=");
        s.append(c.as_str());
        parts.push(s);
    }
    let ghost p5 = match a@.cardinality { Some(c) => p4.push("cardinality="@ + c), None => p4 };
    assert(parts.deep_view() =~= p5);
    if let Some(vs) = &a.entry_values {
        let mut s = String::from_str("values=");
        let joined = join_strings(vs, "|");
        s.append(joined.as_str());
        parts.push(s);
    }
    assert(parts.deep_view() =~= meta_parts(a@));
    join_strings(&parts, "; ")
}

/// The header row, rendered cell by cell.
fn header_cells(schema: &EntrySchema, use_labels: bool) -> (r: Vec<String>)
    ensures
        r.deep_view() == header_row(schema@.attributes, use_labels),
{
    let mut r: Vec<String> = Vec::new();
    let mut i: usize = 0;
    while i < schema.attributes.len()
        invariant
            i <= schema.attributes@.len(),
            r.deep_view().len() == i,
            forall|j: int| 0 <= j < i ==> r.deep_view()[j] == header_cell(
                schema@.attributes[j],
                use_labels,
            ),
        decreases schema.attributes@.len() - i,
    {
        let a = &schema.attributes[i];
        let cell = if use_labels {
            match &a.label {
                Some(l) => l.clone(),
                None => a.name.clone(),
            }
        } else {
            a.name.clone()
        };
        assert(cell@ == header_cell(schema@.attributes[i as int], use_labels));
        let ghost dv0 = r.deep_view();
        let ghost cv = cell@;
        r.push(cell);
        assert(r.deep_view() =~= dv0.push(cv));
        i = i + 1;
    }
    assert(r.deep_view() =~= header_row(schema@.attributes, use_labels));
    r
}

/// The metadata row, rendered cell by cell.
fn meta_cells(schema: &EntrySchema) -> (r: Vec<String>)
    ensures
        r.deep_view() == meta_row(schema@.attributes),
{
    let mut r: Vec<String> = Vec::new();
    let mut i: usize = 0;
    while i < schema.attributes.len()
        invariant
            i <= schema.attributes@.len(),
            r.deep_view().len() == i,
            forall|j: int| 0 <= j < i ==> r.deep_view()[j] == meta_cell(schema@.attributes[j]),
        decreases schema.attributes@.len() - i,
    {
        let cell = meta_cell_text(&schema.attributes[i]);
        let ghost dv0 = r.deep_view();
        let ghost cv = cell@;
        r.push(cell);
        assert(r.deep_view() =~= dv0.push(cv));
        i = i + 1;
    }
    assert(r.deep_view() =~= meta_row(schema@.attributes));
    r
}

/// Renders an entry schema as a character-separated document: a `#` comment
/// line carrying the bundle SAID, a header row of names or labels, and an
/// optional metadata row describing each column.
pub fn write_csv(schema: &EntrySchema, opts: &CsvOptions) -> (r: String)
    ensures
        r@ == csv_text(schema@, opts.include_metadata_row, opts.label_lang is Some),
{
    let mut r = String::from_str("# oca_bundle_said=");
    r.append(schema.said.as_str());
    r.append("\n");
    let use_labels = opts.label_lang.is_some();
    let headers = header_cells(schema, use_labels);
    let hj = join_strings(&headers, ",");
    r.append(hj.as_str());
    r.append("\n");
    if opts.include_metadata_row {
        let metas = meta_cells(schema);
        let mj = join_strings(&metas, ",");
        r.append(mj.as_str());
        r.append("\n");
    }
    r
}

/// The letter of one base-26 digit of a column name.
pub open spec fn col_letter(r: int) -> char {
    if r == 0 {
        'A'
    } else if r == 1 {
        'B'
    } else if r == 2 {
        'C'
    } else if r == 3 {
        'D'
    } else if r == 4 {
        'E'
    } else if r == 5 {
        'F'
    } else if r == 6 {
        'G'
    } else if r == 7 {
        'H'
    } else if r == 8 {
        'I'
    } else if r == 9 {
        'J'
    } else if r == 10 {
        'K'
    } else if r == 11 {
        'L'
    } else if r == 12 {
        'M'
    } else if r == 13 {
        'N'
    } else if r == 14 {
        'O'
    } else if r == 15 {
        'P'
    } else if r == 16 {
        'Q'
    } else if r == 17 {
        'R'
    } else if r == 18 {
        'S'
    } else if r == 19 {
        'T'
    } else if r == 20 {
        'U'
    } else if r == 21 {
        'V'
    } else if r == 22 {
        'W'
    } else if r == 23 {
        'X'
    } else if r == 24 {
        'Y'
    } else {
        'Z'
    }
}

/// The letter of one base-26 digit of a column name, as a string slice.
fn col_letter_str(r: usize) -> (s: &'static str)
    requires
        r < 26,
    ensures
        s@ == seq![col_letter(r as int)],
{
    if r == 0 {
        proof { reveal_strlit("A"); }
        assert("A"@ =~= seq!['A']);
        "A"
    } else if r == 1 {
        proof { reveal_strlit("B"); }
        assert("B"@ =~= seq!['B']);
        "B"
    } else if r == 2 {
        proof { reveal_strlit("C"); }
        assert("C"@ =~= seq!['C']);
        "C"
    } else if r == 3 {
        proof { reveal_strlit("D"); }
        assert("D"@ =~= seq!['D']);
        "D"
    } else if r == 4 {
        proof { reveal_strlit("E"); }
        assert("E"@ =~= seq!['E']);
        "E"
    } else if r == 5 {
        proof { reveal_strlit("F"); }
        assert("F"@ =~= seq!['F']);
        "F"
    } else if r == 6 {
        proof { reveal_strlit("G"); }
        assert("G"@ =~= seq!['G']);
        "G"
    } else if r == 7 {
        proof { reveal_strlit("H"); }
        assert("H"@ =~= seq!['H']);
        "H"
    } else if r == 8 {
        proof { reveal_strlit("I"); }
        assert("I"@ =~= seq!['I']);
        "I"
    } else if r == 9 {
        proof { reveal_strlit("J"); }
        assert("J"@ =~= seq!['J']);
        "J"
    } else if r == 10 {
        proof { reveal_strlit("K"); }
        assert("K"@ =~= seq!['K']);
        "K"
    } else if r == 11 {
        proof { reveal_strlit("L"); }
        assert("L"@ =~= seq!['L']);
        "L"
    } else if r == 12 {
        proof { reveal_strlit("M"); }
        assert("M"@ =~= seq!['M']);
        "M"
    } else if r == 13 {
        proof { reveal_strlit("N"); }
        assert("N"@ =~= seq!['N']);
        "N"
    } else if r == 14 {
        proof { reveal_strlit("O"); }
        assert("O"@ =~= seq!['O']);
        "O"
    } else if r == 15 {
        proof { reveal_strlit("P"); }
        assert("P"@ =~= seq!['P']);
        "P"
    } else if r == 16 {
        proof { reveal_strlit("Q"); }
        assert("Q"@ =~= seq!['Q']);
        "Q"
    } else if r == 17 {
        proof { reveal_strlit("R"); }
        assert("R"@ =~= seq!['R']);
        "R"
    } else if r == 18 {
        proof { reveal_strlit("S"); }
        assert("S"@ =~= seq!['S']);
        "S"
    } else if r == 19 {
        proof { reveal_strlit("T"); }
        assert("T"@ =~= seq!['T']);
        "T"
    } else if r == 20 {
        proof { reveal_strlit("U"); }
        assert("U"@ =~= seq!['U']);
        "U"
    } else if r == 21 {
        proof { reveal_strlit("V"); }
        assert("V"@ =~= seq!['V']);
        "V"
    } else if r == 22 {
        proof { reveal_strlit("W"); }
        assert("W"@ =~= seq!['W']);
        "W"
    } else if r == 23 {
        proof { reveal_strlit("X"); }
        assert("X"@ =~= seq!['X']);
        "X"
    } else if r == 24 {
        proof { reveal_strlit("Y"); }
        assert("Y"@ =~= seq!['Y']);
        "Y"
    } else {
        assert(r == 25);
        proof { reveal_strlit("Z"); }
        assert("Z"@ =~= seq!['Z']);
        "Z"
    }
}

/// Spreadsheet column name of a 1-based index: base-26 digits over A..Z,
/// least significant digit last; index zero names the empty column.
pub open spec fn col_spec(idx: nat) -> Seq<char>
    decreases idx,
{
    if idx == 0 {
        Seq::empty()
    } else {
        col_spec(((idx - 1) / 26) as nat) + seq![col_letter((idx - 1) % 26)]
    }
}

/// Renders a 1-based column index as its spreadsheet letters.
pub fn column_name(idx: usize) -> (r: String)
    ensures
        r@ == col_spec(idx as nat),
    decreases idx,
{
    if idx == 0 {
        let r = String::new();
        assert(r@ =~= col_spec(0));
        r
    } else {
        let rem = (idx - 1) % 26;
        let quot = (idx - 1) / 26;
        assert(quot < idx) by (nonlinear_arith)
            requires
                1 <= idx,
                quot == (idx - 1) / 26,
        ;
        let mut rest = column_name(quot);
        rest.append(col_letter_str(rem));
        rest
    }
}

/// The cell assignments of the spreadsheet output: the header row at row 1,
/// the optional metadata row at row 2, and a dedicated pair of cells in the
/// following row carrying the SAID under the `__oca_bundle_said__` marker.
pub open spec fn xlsx_cells(s: EntrySchemaView, include_meta: bool, use_labels: bool) -> Seq<
    (Seq<char>, Seq<char>),
> {
    let headers = Seq::new(
        s.attributes.len(),
        |i: int| (col_spec((i + 1) as nat) + "1"@, header_cell(s.attributes[i], use_labels)),
    );
    let metas = if include_meta {
        Seq::new(s.attributes.len(), |i: int| (col_spec((i + 1) as nat) + "2"@, meta_cell(s.attributes[i])))
    } else {
        Seq::empty()
    };
    let said_row = if include_meta { "3"@ } else { "2"@ };
    headers + metas + seq![
        ("A"@ + said_row, "__oca_bundle_said__"@),
        ("B"@ + said_row, s.said),
    ]
}

/// Computes the spreadsheet cell plan of an entry schema: which cell gets
/// which text. An encoder only has to copy each pair into a sheet.
pub fn xlsx_cell_plan(schema: &EntrySchema, opts: &XlsxOptions) -> (r: Vec<(String, String)>)
    requires
        schema.attributes@.len() < usize::MAX,
    ensures
        r.deep_view() == xlsx_cells(schema@, opts.include_metadata_row, opts.use_labels),
{
    let n = schema.attributes.len();
    let mut r: Vec<(String, String)> = Vec::new();
    let mut i: usize = 0;
    while i < n
        invariant
            i <= n,
            n == schema.attributes@.len() < usize::MAX,
            r.deep_view().len() == i,
            forall|j: int| 0 <= j < i ==> r.deep_view()[j] == (
                col_spec((j + 1) as nat) + "1"@,
                header_cell(schema@.attributes[j], opts.use_labels),
            ),
        decreases n - i,
    {
        let mut cell = column_name(i + 1);
        cell.append("1");
        let a = &schema.attributes[i];
        let value = if opts.use_labels {
            match &a.label {
                Some(l) => l.clone(),
                None => a.name.clone(),
            }
        } else {
            a.name.clone()
        };
        let ghost dv0 = r.deep_view();
        let ghost pv = (cell@, value@);
        r.push((cell, value));
        assert(r.deep_view() =~= dv0.push(pv));
        i = i + 1;
    }
    if opts.include_metadata_row {
        let mut i: usize = 0;
        while i < n
            invariant
                i <= n,
                n == schema.attributes@.len() < usize::MAX,
                r.deep_view().len() == n + i,
                forall|j: int| 0 <= j < n ==> r.deep_view()[j] == (
                    col_spec((j + 1) as nat) + "1"@,
                    header_cell(schema@.attributes[j], opts.use_labels),
                ),
                forall|j: int| 0 <= j < i ==> r.deep_view()[n + j] == (
                    col_spec((j + 1) as nat) + "2"@,
                    meta_cell(schema@.attributes[j]),
                ),
            decreases n - i,
        {
            let mut cell = column_name(i + 1);
            cell.append("2");
            let value = meta_cell_text(&schema.attributes[i]);
            let ghost dv0 = r.deep_view();
            let ghost pv = (cell@, value@);
            r.push((cell, value));
            assert(r.deep_view() =~= dv0.push(pv));
            i = i + 1;
        }
        let mut cell_a = String::from_str("A");
        cell_a.append("3");
        let mut cell_b = String::from_str("B");
        cell_b.append("3");
        let said_value = schema.said.clone();
        let marker = String::from_str("__oca_bundle_said__");
        let ghost dv0 = r.deep_view();
        let ghost pa = (cell_a@, marker@);
        let ghost pb = (cell_b@, said_value@);
        r.push((cell_a, marker));
        assert(r.deep_view() =~= dv0.push(pa));
        r.push((cell_b, said_value));
        assert(r.deep_view() =~= dv0.push(pa).push(pb));
        assert(r.deep_view() =~= xlsx_cells(schema@, true, opts.use_labels));
    } else {
        let mut cell_a = String::from_str("A");
        cell_a.append("2");
        let mut cell_b = String::from_str("B");
        cell_b.append("2");
        let said_value = schema.said.clone();
        let marker = String::from_str("__oca_bundle_said__");
        let ghost dv0 = r.deep_view();
        let ghost pa = (cell_a@, marker@);
        let ghost pb = (cell_b@, said_value@);
        r.push((cell_a, marker));
        assert(r.deep_view() =~= dv0.push(pa));
        r.push((cell_b, said_value));
        assert(r.deep_view() =~= dv0.push(pa).push(pb));
        assert(r.deep_view() =~= xlsx_cells(schema@, false, opts.use_labels));
    }
    r
}

} // verus!
