//! The promotional codes page: the table of the codes that can be redeemed.

use super::get_cell_content_as_string;
use super::cell_text;
use super::TableCell;
use super::TableRow;
use super::WikiNode;
use super::WikiResource;
use crate::text::contains;
use crate::text::occurs_in;
use crate::text::same;
use crate::text::texts;
use vstd::prelude::*;

verus! {

/// The codes of the page, in the order of the rows of its table.
#[derive(Debug, PartialEq, Eq)]
pub struct PromotionalCodes {
    pub codes: Vec<PromotionalCode>,
}

/// One row of the table of codes. A field is `None` where the table has no
/// column of that name or the row has no cell in it.
#[derive(Debug, PartialEq, Eq)]
pub struct PromotionalCode {
    pub code: Option<String>,
    pub server: Option<String>,
    pub reward: Option<String>,
    pub discovered: Option<String>,
    pub expires: Option<String>,
}

/// The value of a code: the text of each of its fields.
pub struct PromotionalCodeView {
    pub code: Option<Seq<char>>,
    pub server: Option<Seq<char>>,
    pub reward: Option<Seq<char>>,
    pub discovered: Option<Seq<char>>,
    pub expires: Option<Seq<char>>,
}

/// The text of an optional string.
pub open spec fn text_view(field: Option<String>) -> Option<Seq<char>> {
    match field {
        Some(text) => Some(text@),
        None => None,
    }
}

impl View for PromotionalCode {
    type V = PromotionalCodeView;

    open spec fn view(&self) -> PromotionalCodeView {
        PromotionalCodeView {
            code: text_view(self.code),
            server: text_view(self.server),
            reward: text_view(self.reward),
            discovered: text_view(self.discovered),
            expires: text_view(self.expires),
        }
    }
}

/// The values of the given codes, in order.
pub open spec fn code_views(codes: Seq<PromotionalCode>) -> Seq<PromotionalCodeView> {
    Seq::new(codes.len(), |i: int| codes[i]@)
}

impl View for PromotionalCodes {
    type V = Seq<PromotionalCodeView>;

    open spec fn view(&self) -> Seq<PromotionalCodeView> {
        code_views(self.codes@)
    }
}

/// Whether the tables after a text belong to the codes that can be redeemed:
/// the heading of the expired codes ends that section, the heading of the
/// available codes begins it, and any other text leaves it as it was.
pub open spec fn section_after(text: Seq<char>, available: bool) -> bool {
    if occurs_in("== Expired =="@, text) {
        false
    } else if occurs_in("== Available =="@, text) {
        true
    } else {
        available
    }
}

/// The rows of the first table that stands in the section of the available
/// codes, where `available` says whether `nodes` begin inside that section.
pub open spec fn first_available_table(nodes: Seq<WikiNode>, available: bool) -> Option<
    Seq<TableRow>,
>
    decreases nodes.len(),
{
    if nodes.len() == 0 {
        None
    } else {
        match nodes[0] {
            WikiNode::Text { value } => first_available_table(
                nodes.skip(1),
                section_after(value@, available),
            ),
            WikiNode::Table { rows } => if available {
                Some(rows@)
            } else {
                first_available_table(nodes.skip(1), available)
            },
            _ => first_available_table(nodes.skip(1), available),
        }
    }
}

/// The names of the columns: the texts of the cells of the heading row.
pub open spec fn header_names(cells: Seq<TableCell>) -> Seq<Seq<char>> {
    Seq::new(cells.len(), |i: int| cell_text(cells[i].content@))
}

/// The text of the last cell among the first `upto` whose column is called
/// `name`, if there is one.
pub open spec fn named_cell(
    headers: Seq<Seq<char>>,
    cells: Seq<TableCell>,
    name: Seq<char>,
    upto: nat,
) -> Option<Seq<char>>
    decreases upto,
{
    if upto == 0 {
        None
    } else if headers[upto - 1] == name {
        Some(cell_text(cells[upto - 1].content@))
    } else {
        named_cell(headers, cells, name, (upto - 1) as nat)
    }
}

/// The number of cells of a row that stand under a column.
pub open spec fn named_cells(headers: Seq<Seq<char>>, cells: Seq<TableCell>) -> nat {
    if cells.len() <= headers.len() {
        cells.len()
    } else {
        headers.len()
    }
}

/// The code that a row gives under the given column names. Cells without a
/// column and columns of other names are ignored.
pub open spec fn row_code(headers: Seq<Seq<char>>, cells: Seq<TableCell>) -> PromotionalCodeView {
    let upto = named_cells(headers, cells);
    PromotionalCodeView {
        code: named_cell(headers, cells, "Code"@, upto),
        server: named_cell(headers, cells, "Server"@, upto),
        reward: named_cell(headers, cells, "Reward"@, upto),
        discovered: named_cell(headers, cells, "Discovered"@, upto),
        expires: named_cell(headers, cells, "Expires"@, upto),
    }
}

/// The codes of a table: one for each row below the heading row. A table
/// without rows gives no codes.
pub open spec fn table_codes(rows: Seq<TableRow>) -> Seq<PromotionalCodeView> {
    if rows.len() == 0 {
        Seq::empty()
    } else {
        Seq::new(
            (rows.len() - 1) as nat,
            |i: int| row_code(header_names(rows[0].cells@), rows[i + 1].cells@),
        )
    }
}

/// The codes of a page: those of the first table in the section of the
/// available codes, and none where there is no such table.
pub open spec fn codes_of(nodes: Seq<WikiNode>) -> Seq<PromotionalCodeView> {
    match first_available_table(nodes, false) {
        Some(rows) => table_codes(rows),
        None => Seq::empty(),
    }
}

/// The codes of `current` whose value does not occur in `previous`, in the
/// order of `current`.
pub open spec fn new_codes(
    current: Seq<PromotionalCodeView>,
    previous: Seq<PromotionalCodeView>,
) -> Seq<PromotionalCodeView> {
    current.filter(|code: PromotionalCodeView| !previous.contains(code))
}

/// A copy of an optional string.
fn clone_field(field: &Option<String>) -> (copy: Option<String>)
    ensures
        text_view(copy) == text_view(*field),
{
    match field {
        Some(text) => Some(text.clone()),
        None => None,
    }
}

/// Whether two optional strings hold the same text.
fn same_field(a: &Option<String>, b: &Option<String>) -> (equal: bool)
    ensures
        equal == (text_view(*a) == text_view(*b)),
{
    match (a, b) {
        (Some(x), Some(y)) => same(x.as_str(), y.as_str()),
        (None, None) => true,
        _ => false,
    }
}

impl Clone for PromotionalCode {
    fn clone(&self) -> (copy: Self)
        ensures
            copy@ == self@,
    {
        PromotionalCode {
            code: clone_field(&self.code),
            server: clone_field(&self.server),
            reward: clone_field(&self.reward),
            discovered: clone_field(&self.discovered),
            expires: clone_field(&self.expires),
        }
    }
}

impl PromotionalCode {
    /// A code with no field set.
    pub fn new() -> (code: PromotionalCode)
        ensures
            code@ == (PromotionalCodeView {
                code: None,
                server: None,
                reward: None,
                discovered: None,
                expires: None,
            }),
    {
        PromotionalCode { code: None, server: None, reward: None, discovered: None, expires: None }
    }

    /// Whether two codes have the same value.
    pub fn same_as(&self, other: &PromotionalCode) -> (equal: bool)
        ensures
            equal == (self@ == other@),
    {
        same_field(&self.code, &other.code) && same_field(&self.server, &other.server)
            && same_field(&self.reward, &other.reward) && same_field(
            &self.discovered,
            &other.discovered,
        ) && same_field(&self.expires, &other.expires)
    }
}

/// The difference of two snapshots holds exactly the codes of the current one
/// whose value does not occur in the previous one.
pub proof fn lemma_difference_holds_the_absent_codes(
    current: Seq<PromotionalCodeView>,
    previous: Seq<PromotionalCodeView>,
    code: PromotionalCodeView,
)
    ensures
        new_codes(current, previous).contains(code) <==> current.contains(code)
            && !previous.contains(code),
{
    let absent = |code: PromotionalCodeView| !previous.contains(code);
    if new_codes(current, previous).contains(code) {
        current.lemma_filter_contains_rev(absent, code);
    }
    if current.contains(code) && !previous.contains(code) {
        let i = choose|i: int| 0 <= i < current.len() && current[i] == code;
        current.lemma_filter_contains(absent, i);
    }
}

/// The difference of a snapshot with itself holds nothing.
pub proof fn lemma_difference_with_itself_is_empty(resource: Seq<PromotionalCodeView>)
    ensures
        new_codes(resource, resource) == Seq::<PromotionalCodeView>::empty(),
{
    PromotionalCodes::lemma_difference_with_itself(resource);
    assert(new_codes(resource, resource) =~= Seq::<PromotionalCodeView>::empty());
}

/// The names of the columns of a table.
fn header_row(cells: &Vec<TableCell>) -> (headers: Vec<String>)
    ensures
        texts(headers@) == header_names(cells@),
{
    let mut headers: Vec<String> = Vec::new();
    let mut i: usize = 0;
    while i < cells.len()
        invariant
            i <= cells.len(),
            headers@.len() == i,
            forall|j: int| 0 <= j < i ==> headers@[j]@ == cell_text(cells@[j].content@),
        decreases cells.len() - i,
    {
        headers.push(get_cell_content_as_string(&cells[i].content));
        i = i + 1;
    }
    assert(texts(headers@) =~= header_names(cells@));
    headers
}

/// The code that a row gives under the given column names.
fn code_of_row(headers: &Vec<String>, cells: &Vec<TableCell>) -> (code: PromotionalCode)
    ensures
        code@ == row_code(texts(headers@), cells@),
{
    let mut code = PromotionalCode::new();
    let mut idx: usize = 0;
    let ghost names = texts(headers@);
    while idx < cells.len() && idx < headers.len()
        invariant
            idx <= cells.len(),
            idx <= headers.len(),
            names == texts(headers@),
            code@.code == named_cell(names, cells@, "Code"@, idx as nat),
            code@.server == named_cell(names, cells@, "Server"@, idx as nat),
            code@.reward == named_cell(names, cells@, "Reward"@, idx as nat),
            code@.discovered == named_cell(names, cells@, "Discovered"@, idx as nat),
            code@.expires == named_cell(names, cells@, "Expires"@, idx as nat),
        decreases cells.len() - idx,
    {
        let value = get_cell_content_as_string(&cells[idx].content);
        let header = headers[idx].as_str();
        proof {
            reveal_strlit("Code");
            reveal_strlit("Server");
            reveal_strlit("Reward");
            reveal_strlit("Discovered");
            reveal_strlit("Expires");
            assert(names[idx as int] == header@);
            assert("Server"@[0] != "Reward"@[0]);
        }
        if same(header, "Code") {
            code.code = Some(value);
        } else if same(header, "Server") {
            code.server = Some(value);
        } else if same(header, "Reward") {
            code.reward = Some(value);
        } else if same(header, "Discovered") {
            code.discovered = Some(value);
        } else if same(header, "Expires") {
            code.expires = Some(value);
        }
        idx = idx + 1;
    }
    code
}

/// The codes of a table.
fn codes_of_table(rows: &Vec<TableRow>) -> (codes: Vec<PromotionalCode>)
    ensures
        code_views(codes@) == table_codes(rows@),
{
    let mut codes: Vec<PromotionalCode> = Vec::new();
    if rows.len() == 0 {
        assert(code_views(codes@) =~= table_codes(rows@));
        return codes;
    }
    let headers = header_row(&rows[0].cells);
    let mut r: usize = 1;
    while r < rows.len()
        invariant
            1 <= r <= rows.len(),
            texts(headers@) == header_names(rows@[0].cells@),
            codes@.len() == r - 1,
            forall|j: int|
                0 <= j < r - 1 ==> (#[trigger] codes@[j])@ == row_code(
                    header_names(rows@[0].cells@),
                    rows@[j + 1].cells@,
                ),
        decreases rows.len() - r,
    {
        codes.push(code_of_row(&headers, &rows[r].cells));
        r = r + 1;
    }
    assert(code_views(codes@) =~= table_codes(rows@));
    codes
}

/// Whether a code of the given value stands among `codes`.
fn holds(codes: &Vec<PromotionalCode>, code: &PromotionalCode) -> (found: bool)
    ensures
        found == code_views(codes@).contains(code@),
{
    let mut i: usize = 0;
    while i < codes.len()
        invariant
            i <= codes.len(),
            forall|j: int| 0 <= j < i ==> codes@[j]@ != code@,
        decreases codes.len() - i,
    {
        if codes[i].same_as(code) {
            assert(code_views(codes@)[i as int] == code@);
            return true;
        }
        i = i + 1;
    }
    false
}

impl Clone for PromotionalCodes {
    fn clone(&self) -> (copy: Self)
        ensures
            copy@ == self@,
    {
        let mut codes: Vec<PromotionalCode> = Vec::new();
        let mut i: usize = 0;
        while i < self.codes.len()
            invariant
                i <= self.codes.len(),
                codes@.len() == i,
                forall|j: int| 0 <= j < i ==> codes@[j]@ == self.codes@[j]@,
            decreases self.codes.len() - i,
        {
            codes.push(self.codes[i].clone());
            i = i + 1;
        }
        assert(code_views(codes@) =~= code_views(self.codes@));
        PromotionalCodes { codes }
    }
}

impl WikiResource for PromotionalCodes {
    open spec fn from_spec(nodes: Seq<WikiNode>) -> Seq<PromotionalCodeView> {
        codes_of(nodes)
    }

    open spec fn title_spec() -> Seq<char> {
        "Promotional_Codes"@
    }

    open spec fn resource_type_spec() -> Seq<char> {
        "mona_spy::data_provider::wiki::promotional_codes::PromotionalCodes"@
    }

    open spec fn difference_spec(
        current: Seq<PromotionalCodeView>,
        previous: Seq<PromotionalCodeView>,
    ) -> Seq<PromotionalCodeView> {
        new_codes(current, previous)
    }

    open spec fn empty_spec(resource: Seq<PromotionalCodeView>) -> bool {
        resource.len() == 0
    }

    /// The codes of the first table in the section of the available codes:
    /// the snapshot's view is `codes_of` of the nodes.
    fn from(nodes: &Vec<WikiNode>) -> (resource: Self) {
        let mut available = false;
        let mut i: usize = 0;
        assert(nodes@.skip(0) =~= nodes@);
        while i < nodes.len()
            invariant
                i <= nodes.len(),
                first_available_table(nodes@, false) == first_available_table(
                    nodes@.skip(i as int),
                    available,
                ),
            decreases nodes.len() - i,
        {
            let ghost rest = nodes@.skip(i as int);
            assert(rest.skip(1) =~= nodes@.skip(i + 1));
            assert(rest[0] == nodes@[i as int]);
            match &nodes[i] {
                WikiNode::Text { value } => {
                    if contains(value.as_str(), "== Available ==") {
                        available = true;
                    }
                    if contains(value.as_str(), "== Expired ==") {
                        available = false;
                    }
                },
                WikiNode::Table { rows } => {
                    if available {
                        return PromotionalCodes { codes: codes_of_table(rows) };
                    }
                },
                _ => {},
            }
            i = i + 1;
        }
        let codes: Vec<PromotionalCode> = Vec::new();
        assert(code_views(codes@) =~= Seq::<PromotionalCodeView>::empty());
        PromotionalCodes { codes }
    }

    fn get_title() -> (title: &'static str)
        ensures
            title@ == "Promotional_Codes"@,
    {
        "Promotional_Codes"
    }

    fn resource_type() -> (name: &'static str)
        ensures
            name@ == "mona_spy::data_provider::wiki::promotional_codes::PromotionalCodes"@,
    {
        "mona_spy::data_provider::wiki::promotional_codes::PromotionalCodes"
    }

    fn difference(&self, other: &Self) -> (difference: Self)
        ensures
            difference@ == new_codes(self@, other@),
    {
        let mut codes: Vec<PromotionalCode> = Vec::new();
        let mut i: usize = 0;
        let ghost absent = |code: PromotionalCodeView| !other@.contains(code);
        proof {
            reveal(Seq::filter);
            assert(self@.take(0).filter(absent) =~= code_views(codes@));
        }
        while i < self.codes.len()
            invariant
                i <= self.codes.len(),
                absent == |code: PromotionalCodeView| !other@.contains(code),
                code_views(codes@) == self@.take(i as int).filter(absent),
            decreases self.codes.len() - i,
        {
            let ghost before = code_views(codes@);
            proof {
                let upto = self@.take(i + 1);
                assert(upto.drop_last() =~= self@.take(i as int));
                assert(upto.last() == self.codes@[i as int]@);
                reveal(Seq::filter);
            }
            if !holds(&other.codes, &self.codes[i]) {
                codes.push(self.codes[i].clone());
                assert(code_views(codes@) =~= before.push(self.codes@[i as int]@));
            }
            i = i + 1;
        }
        assert(self@.take(self.codes.len() as int) =~= self@);
        PromotionalCodes { codes }
    }

    fn empty(&self) -> (empty: bool)
        ensures
            empty == (self@.len() == 0),
    {
        self.codes.is_empty()
    }

    proof fn lemma_difference_with_itself(resource: Seq<PromotionalCodeView>) {
        let absent = |code: PromotionalCodeView| !resource.contains(code);
        assert forall|i: int| 0 <= i < resource.len() implies !absent(#[trigger] resource[i]) by {
            assert(resource.contains(resource[i]));
        }
        resource.lemma_all_neg_filter_empty(absent);
    }

    proof fn lemma_clone(resource: Self, copy: Self) {
    }
}

} // verus!
