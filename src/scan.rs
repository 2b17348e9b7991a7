//! Draining a whole table by following continuation tokens.
//!
//! The scanner is a state machine: it is handed the outcome of each page
//! request and answers with what to do next, so that the caller performs the
//! requests and the decisions stay here.
use crate::record::SubscriberRecord;
use vstd::prelude::*;

verus! {

/// Where the next page of a scan begins: the key of the last item that the
/// table reported. Opaque to the scanner, which only hands it back.
#[derive(Clone, Debug)]
pub struct PageToken {
    pub key: SubscriberRecord,
}

/// One page of scan results, as the table returned it.
#[derive(Clone, Debug)]
pub struct ScanPage {
    pub items: Vec<SubscriberRecord>,
    /// `None` on the final page.
    pub next_token: Option<PageToken>,
}

/// A failed table read or write (network, throttling, permission).
#[derive(Clone, Debug)]
pub struct BackendError {
    pub message: String,
}

/// A page request to issue against the table.
#[derive(Clone, Debug)]
pub struct ScanRequest {
    pub table_name: String,
    /// `None` for the first page.
    pub start_key: Option<PageToken>,
}

/// What the caller does next.
#[derive(Debug)]
pub enum ScanAction {
    /// Issue this page request and hand its outcome to `step`.
    Request(ScanRequest),
    /// Every page has arrived; `finish` yields the records.
    Complete,
    /// A page request failed; the scan is over and this error is its result.
    Abort(BackendError),
}

#[derive(Clone, Copy, Debug, PartialEq, Eq, Structural)]
enum Phase {
    Running,
    Complete,
    Failed,
}

/// Collects every record of a table, page by page.
pub struct TableScanner {
    table_name: String,
    items: Vec<SubscriberRecord>,
    phase: Phase,
    pages: Ghost<Seq<Seq<SubscriberRecord>>>,
}

impl TableScanner {
    /// The records collected so far.
    pub closed spec fn collected(&self) -> Seq<SubscriberRecord> {
        self.items@
    }

    /// The items of each page received so far, in order of arrival.
    pub closed spec fn pages_received(&self) -> Seq<Seq<SubscriberRecord>> {
        self.pages@
    }

    /// The table being scanned.
    pub closed spec fn table(&self) -> Seq<char> {
        self.table_name@
    }

    /// A page request is outstanding.
    pub closed spec fn is_running(&self) -> bool {
        self.phase == Phase::Running
    }

    /// The final page has arrived.
    pub closed spec fn is_complete(&self) -> bool {
        self.phase == Phase::Complete
    }

    /// A page request failed.
    pub closed spec fn is_failed(&self) -> bool {
        self.phase == Phase::Failed
    }

    /// The collected records are the pages received, concatenated in order.
    pub closed spec fn wf(&self) -> bool {
        self.items@ == self.pages@.flatten()
    }

    /// The number of page requests handed out so far: one per page
    /// received, and one more while a request is outstanding or after the
    /// one that failed.
    pub open spec fn requests_issued(&self) -> nat {
        if self.is_running() || self.is_failed() {
            self.pages_received().len() + 1
        } else {
            self.pages_received().len()
        }
    }

    /// Begins a scan of `table_name`: the first request has no start key.
    pub fn start(table_name: String) -> (r: (TableScanner, ScanAction))
        ensures
            r.0.wf(),
            r.0.is_running(),
            r.0.table() == table_name@,
            r.0.pages_received() == Seq::<Seq<SubscriberRecord>>::empty(),
            r.0.collected() == Seq::<SubscriberRecord>::empty(),
            r.0.requests_issued() == 1,
            r.1 matches ScanAction::Request(q) && q.table_name@ == table_name@ && q.start_key
                is None,
    {
        let request = ScanRequest { table_name: table_name.clone(), start_key: None };
        let scanner = TableScanner {
            table_name,
            items: Vec::new(),
            phase: Phase::Running,
            pages: Ghost(Seq::empty()),
        };
        assert(scanner.pages@.flatten() =~= Seq::<SubscriberRecord>::empty());
        (scanner, ScanAction::Request(request))
    }

    /// Takes the outcome of the outstanding page request. A page is appended
    /// to what was collected, in the order the table returned it; its token,
    /// if any, becomes the start key of the next request, and its absence
    /// completes the scan. A failure ends the scan with that error, and no
    /// records are yielded.
    pub fn step(&mut self, outcome: Result<ScanPage, BackendError>) -> (a: ScanAction)
        requires
            old(self).wf(),
            old(self).is_running(),
        ensures
            final(self).wf(),
            final(self).table() == old(self).table(),
            match outcome {
                Ok(page) => {
                    &&& final(self).pages_received() == old(self).pages_received().push(
                        page.items@,
                    )
                    &&& final(self).collected() == old(self).collected() + page.items@
                    &&& match page.next_token {
                        Some(t) => {
                            &&& final(self).is_running()
                            &&& a matches ScanAction::Request(q)
                                && q.table_name@ == old(self).table()
                                && q.start_key == Some(t)
                        },
                        None => final(self).is_complete() && a is Complete,
                    }
                },
                Err(e) => {
                    &&& final(self).is_failed()
                    &&& final(self).pages_received() == old(self).pages_received()
                    &&& a == ScanAction::Abort(e)
                },
            },
            final(self).is_running() ==> final(self).requests_issued()
                == old(self).requests_issued() + 1,
            !final(self).is_running() ==> final(self).requests_issued()
                == old(self).requests_issued(),
    {
        match outcome {
            Ok(page) => {
                let ScanPage { items: mut page_items, next_token } = page;
                let ghost received = page_items@;
                proof {
                    self.pages@.lemma_flatten_push(received);
                    self.pages@ = self.pages@.push(received);
                }
                self.items.append(&mut page_items);
                match next_token {
                    Some(t) => ScanAction::Request(
                        ScanRequest { table_name: self.table_name.clone(), start_key: Some(t) },
                    ),
                    None => {
                        self.phase = Phase::Complete;
                        ScanAction::Complete
                    },
                }
            },
            Err(e) => {
                self.phase = Phase::Failed;
                ScanAction::Abort(e)
            },
        }
    }

    /// The records of a completed scan; `None` while it runs or after a
    /// failure, so that a failed scan never passes for a partial success.
    pub fn finish(self) -> (r: Option<Vec<SubscriberRecord>>)
        requires
            self.wf(),
        ensures
            self.is_complete() <==> r is Some,
            r matches Some(v) ==> v@ == self.collected() && v@ == self.pages_received().flatten(),
    {
        if self.phase == Phase::Complete {
            Some(self.items)
        } else {
            None
        }
    }
}

/// A table of `table.len()` items served in pages of at most `page_size`
/// items, in table order. An empty table is served as one empty page.
pub open spec fn split_pages(table: Seq<SubscriberRecord>, page_size: nat) -> Seq<
    Seq<SubscriberRecord>,
>
    decreases table.len(),
{
    if page_size == 0 || table.len() <= page_size {
        seq![table]
    } else {
        seq![table.take(page_size as int)] + split_pages(table.skip(page_size as int), page_size)
    }
}

/// Whatever the page size, a scanner that has received the pages of a table
/// holds exactly that table's items: the same number, in the same order, none
/// repeated and none left out. An empty table takes one request, whose page
/// is empty.
pub proof fn lemma_scan_collects_table(table: Seq<SubscriberRecord>, page_size: nat)
    requires
        page_size > 0,
    ensures
        split_pages(table, page_size).flatten() == table,
        forall|s: TableScanner|
            s.wf() && #[trigger] s.pages_received() == split_pages(table, page_size) ==> {
                &&& s.collected() == table
                &&& s.collected().len() == table.len()
                &&& s.collected().to_multiset() == table.to_multiset()
            },
        table.len() == 0 ==> split_pages(table, page_size) == seq![table],
    decreases table.len(),
{
    let pages = split_pages(table, page_size);
    if table.len() <= page_size {
        pages.lemma_flatten_one_element();
    } else {
        let head = table.take(page_size as int);
        let tail = table.skip(page_size as int);
        lemma_scan_collects_table(tail, page_size);
        let first: Seq<Seq<SubscriberRecord>> = seq![head];
        vstd::seq_lib::lemma_flatten_concat(first, split_pages(tail, page_size));
        first.lemma_flatten_one_element();
        assert(head + tail =~= table);
    }
}

} // verus!
