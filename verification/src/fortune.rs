use vstd::prelude::*;

verus! {

/// Number of fortunes returned when a request does not say how many.
pub const DEFAULT_QUANTITY: i64 = 20;

/// One fortune record: a single line of text drawn from the store.
#[derive(Debug, Clone)]
pub struct Fortune {
    pub content: String,
}

/// Body of a request for a batch of fortunes; `quantity` may be omitted.
#[derive(Debug, Clone)]
pub struct FortunesListRequest {
    pub quantity: Option<i64>,
}

/// Successful response: `count` always equals the number of items.
#[derive(Debug)]
pub struct FortunesListResponse {
    pub count: usize,
    pub items: Vec<Fortune>,
}

impl FortunesListResponse {
    /// The count field agrees with the items carried.
    pub open spec fn wf(&self) -> bool {
        self.count == self.items@.len()
    }
}

/// The quantity a request asks for: its own value where it gives one
/// (clamped to zero from below, since a negative request asks for nothing),
/// or the configured default where it gives none.
pub open spec fn resolved_quantity(q: Option<i64>) -> i64 {
    match q {
        Some(n) => if n >= 0 { n } else { 0 },
        None => DEFAULT_QUANTITY,
    }
}

/// Resolve the optional quantity of a request.
pub fn resolve_quantity(request: &FortunesListRequest) -> (r: i64)
    ensures
        r == resolved_quantity(request.quantity),
        0 <= r,
{
    match request.quantity {
        Some(n) => if n >= 0 {
            n
        } else {
            0
        },
        None => DEFAULT_QUANTITY,
    }
}

/// Wrap fetched items in a response whose `count` is their number.
pub fn build_response(items: Vec<Fortune>) -> (r: FortunesListResponse)
    ensures
        r.wf(),
        r.items == items,
        r.count == items@.len(),
{
    let count = items.len();
    FortunesListResponse { count, items }
}

/// Turn the `content` column of fetched rows into fortune records, keeping
/// the store's order.
pub fn fortunes_from_rows(rows: Vec<String>) -> (r: Vec<Fortune>)
    ensures
        r@.len() == rows@.len(),
        forall|i: int| 0 <= i < rows@.len() ==> r@[i].content@ == rows@[i]@,
{
    let mut out: Vec<Fortune> = Vec::new();
    let mut i: usize = 0;
    while i < rows.len()
        invariant
            i <= rows@.len(),
            out@.len() == i,
            forall|j: int| 0 <= j < i ==> out@[j].content@ == rows@[j]@,
        decreases rows@.len() - i,
    {
        out.push(Fortune { content: rows[i].clone() });
        i = i + 1;
    }
    out
}

} // verus!
