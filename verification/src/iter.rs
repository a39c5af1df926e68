//! Consumer-facing lazy sequences over a page stream.
//!
//! [`PageIterator`] re-exposes a [`PageStream`] element by element, with no
//! transformation. [`ItemIterator`] flattens the same stream into individual
//! items: it buffers the current page's items and pulls the next page only
//! when the buffer runs out, skipping pages with zero items without ever
//! signalling a spurious end of the sequence.

use vstd::prelude::*;

use crate::error::Error;
use crate::pager::{Fetcher, Page, PageDriver, PageStream};
use crate::poll::Poll;

verus! {

/// The item-or-error elements a sequence of extracted items contributes.
pub open spec fn as_ok_events<T>(items: Seq<T>) -> Seq<Result<T, Error>> {
    items.map_values(|t: T| Result::<T, Error>::Ok(t))
}

/// The item-or-error elements one page extraction contributes: each item in
/// order on success, the error alone on failure.
pub open spec fn extraction_events<T>(ext: Result<Seq<T>, Error>) -> Seq<Result<T, Error>> {
    match ext {
        Ok(items) => as_ok_events(items),
        Err(e) => seq![Err(e)],
    }
}

/// How many elements of a page sequence are pages (rather than errors).
pub open spec fn count_oks<R>(pages: Seq<Result<R, Error>>) -> nat
    decreases pages.len(),
{
    if pages.len() == 0 {
        0
    } else {
        count_oks(pages.drop_last()) + (if pages.last() is Ok {
            1nat
        } else {
            0nat
        })
    }
}

/// The full item-level event sequence determined by a page-level event
/// sequence together with the extraction outcome of each page: items are
/// yielded in page order and, within a page, in extraction order; a page
/// error or an extraction error contributes a single error element in place.
pub open spec fn item_events<R, T>(
    pages: Seq<Result<R, Error>>,
    exts: Seq<Result<Seq<T>, Error>>,
) -> Seq<Result<T, Error>>
    decreases pages.len(),
{
    if pages.len() == 0 {
        Seq::empty()
    } else {
        match pages.last() {
            Err(e) => item_events(pages.drop_last(), exts).push(Err(e)),
            Ok(_) => if exts.len() == 0 {
                item_events(pages.drop_last(), exts)
            } else {
                item_events(pages.drop_last(), exts.drop_last()) + extraction_events(exts.last())
            },
        }
    }
}

/// Appending a page error to the page events appends one error element to
/// the item events.
proof fn lemma_item_events_push_err<R, T>(
    pages: Seq<Result<R, Error>>,
    exts: Seq<Result<Seq<T>, Error>>,
    e: Error,
)
    ensures
        item_events(pages.push(Err(e)), exts) == item_events(pages, exts).push(Err(e)),
{
    assert(pages.push(Err(e)).drop_last() =~= pages);
    assert(pages.push(Err(e)).last() == Err::<R, Error>(e));
}

/// Appending a page together with its extraction outcome appends exactly
/// that extraction's events to the item events.
proof fn lemma_item_events_push_ok<R, T>(
    pages: Seq<Result<R, Error>>,
    exts: Seq<Result<Seq<T>, Error>>,
    page_el: Result<R, Error>,
    ext: Result<Seq<T>, Error>,
)
    requires
        page_el is Ok,
    ensures
        item_events(pages.push(page_el), exts.push(ext)) == item_events(pages, exts)
            + extraction_events(ext),
{
    assert(pages.push(page_el).drop_last() =~= pages);
    assert(exts.push(ext).drop_last() =~= exts);
    assert(pages.push(page_el).last() == page_el);
    assert(exts.push(ext).last() == ext);
}

/// Appending a page element changes the page count by one exactly when the
/// element is a page rather than an error.
proof fn lemma_count_oks_push<R>(pages: Seq<Result<R, Error>>, el: Result<R, Error>)
    ensures
        count_oks(pages.push(el)) == count_oks(pages) + (if el is Ok {
            1nat
        } else {
            0nat
        }),
{
    assert(pages.push(el).drop_last() =~= pages);
    assert(pages.push(el).last() == el);
}

/// Iterates over the individual items of a collection of pages from a
/// service, flattening a page stream into an item stream.
pub struct ItemIterator<S> where S: PageStream, S::Response: Page {
    stream: S,
    current: Option<Vec<<S::Response as Page>::Item>>,
    extractions: Ghost<Seq<Result<Seq<<S::Response as Page>::Item>, Error>>>,
    items_emitted: Ghost<Seq<Result<<S::Response as Page>::Item, Error>>>,
}

impl<S> ItemIterator<S> where S: PageStream, S::Response: Page {
    /// The underlying page stream.
    pub closed spec fn spec_stream(&self) -> S {
        self.stream
    }

    /// The buffered remainder of the current page's items, if a page is
    /// buffered.
    pub closed spec fn spec_current(&self) -> Option<Seq<<S::Response as Page>::Item>> {
        match self.current {
            Some(v) => Some(v@),
            None => None,
        }
    }

    /// Ghost transcript of the extraction outcome of each page pulled so
    /// far, in page order.
    pub closed spec fn extractions(&self) -> Seq<
        Result<Seq<<S::Response as Page>::Item>, Error>,
    > {
        self.extractions@
    }

    /// Ghost transcript of the item-or-error elements produced so far.
    pub closed spec fn emitted_items(&self) -> Seq<
        Result<<S::Response as Page>::Item, Error>,
    > {
        self.items_emitted@
    }

    /// The elements the buffered items will contribute next.
    pub open spec fn pending_items(&self) -> Seq<Result<<S::Response as Page>::Item, Error>> {
        match self.spec_current() {
            Some(items) => as_ok_events(items),
            None => Seq::empty(),
        }
    }

    /// Well-formedness: the stream is well formed, every page pulled has
    /// been extracted exactly once, and what was produced so far followed by
    /// what is buffered is exactly the item-event sequence the pulled pages
    /// and their extractions determine.
    pub open spec fn wf(&self) -> bool {
        &&& self.spec_stream().inv()
        &&& self.extractions().len() == count_oks(self.spec_stream().emitted())
        &&& self.emitted_items() + self.pending_items() == item_events(
            self.spec_stream().emitted(),
            self.extractions(),
        )
    }

    /// The item sequence has ended: nothing is buffered and the underlying
    /// page stream is finished.
    pub open spec fn at_end(&self) -> bool {
        self.spec_current() is None && self.spec_stream().finished()
    }

    /// Creates an item iterator over a pre-built page stream that has not
    /// produced anything yet.
    pub fn from_stream(stream: S) -> (r: Self)
        requires
            stream.inv(),
            stream.emitted().len() == 0,
        ensures
            r.wf(),
            r.spec_stream() == stream,
            r.spec_current() is None,
            r.emitted_items().len() == 0,
            r.extractions().len() == 0,
    {
        let r = ItemIterator {
            stream,
            current: None,
            extractions: Ghost(Seq::empty()),
            items_emitted: Ghost(Seq::empty()),
        };
        proof {
            assert(r.spec_stream().emitted() =~= Seq::<Result<S::Response, Error>>::empty());
            assert(r.emitted_items() + r.pending_items() =~= item_events(
                r.spec_stream().emitted(),
                r.extractions(),
            ));
        }
        r
    }

    /// Produces the next item-level element.
    ///
    /// One poll yields the next buffered item if there is one; otherwise it
    /// pulls at most one page from the stream. `Ready(Some(Ok(..)))` is the
    /// next item, `Ready(Some(Err(..)))` surfaces a fetch or extraction
    /// error once, `Ready(None)` is the end of the sequence, and `Pending`
    /// reports that a page with zero items was consumed, so the caller
    /// polls again: an empty page never ends the sequence.
    pub fn poll_next(&mut self) -> (r: Poll<
        Option<Result<<S::Response as Page>::Item, Error>>,
    >)
        requires
            old(self).wf(),
        ensures
            final(self).wf(),
            old(self).spec_stream().emitted().is_prefix_of(final(self).spec_stream().emitted()),
            old(self).extractions().is_prefix_of(final(self).extractions()),
            (match r {
                Poll::Ready(Some(el)) => final(self).emitted_items() == old(self).emitted_items().push(el),
                Poll::Ready(None) => final(self).emitted_items() == old(self).emitted_items()
                    && final(self).at_end(),
                Poll::Pending => final(self).emitted_items() == old(self).emitted_items()
                    && final(self).spec_stream().emitted().len() == old(self).spec_stream().emitted().len() + 1,
            }),
            old(self).at_end() ==> ((r matches Poll::Ready(None)) && *final(self) == *old(self)),
    {
        if let Some(mut cur) = self.current.take() {
            if cur.len() > 0 {
                let item = cur.remove(0);
                let ghost gitem = item;
                self.current = Some(cur);
                self.items_emitted = Ghost(self.items_emitted@.push(Ok(gitem)));
                proof {
                    assert(self.emitted_items() + self.pending_items() =~= item_events(
                        self.spec_stream().emitted(),
                        self.extractions(),
                    ));
                }
                return Poll::Ready(Some(Ok(item)));
            }
            proof {
                assert(old(self).pending_items() =~= Seq::<
                    Result<<S::Response as Page>::Item, Error>,
                >::empty());
            }
        }
        // No buffered item is left: pull the next page from the stream.
        let ghost prev_pages = self.stream.emitted();
        proof {
            assert(self.emitted_items() + self.pending_items() =~= self.emitted_items());
        }
        let polled = self.stream.poll_page();
        match polled {
            None => {
                Poll::Ready(None)
            },
            Some(Err(e)) => {
                self.items_emitted = Ghost(self.items_emitted@.push(Err(e)));
                proof {
                    lemma_item_events_push_err(prev_pages, self.extractions@, e);
                    lemma_count_oks_push(prev_pages, Err::<S::Response, Error>(e));
                    assert(old(self).spec_stream().emitted().is_prefix_of(
                        self.spec_stream().emitted(),
                    ));
                    assert(self.emitted_items() + self.pending_items() =~= item_events(
                        self.spec_stream().emitted(),
                        self.extractions(),
                    ));
                }
                Poll::Ready(Some(Err(e)))
            },
            Some(Ok(page)) => {
                let ghost gpage = page;
                let extracted = page.into_items();
                self.extractions = Ghost(
                    self.extractions@.push(
                        match &extracted {
                            Ok(v) => Ok(v@),
                            Err(e) => Err(*e),
                        },
                    ),
                );
                proof {
                    lemma_count_oks_push(prev_pages, Ok::<S::Response, Error>(gpage));
                    assert(old(self).spec_stream().emitted().is_prefix_of(
                        self.spec_stream().emitted(),
                    ));
                }
                match extracted {
                    Err(e) => {
                        self.items_emitted = Ghost(self.items_emitted@.push(Err(e)));
                        proof {
                            lemma_item_events_push_ok(
                                prev_pages,
                                self.extractions@.drop_last(),
                                Ok::<S::Response, Error>(gpage),
                                Err(e),
                            );
                            assert(self.extractions@.drop_last() =~= old(self).extractions());
                            assert(self.emitted_items() + self.pending_items() =~= item_events(
                                self.spec_stream().emitted(),
                                self.extractions(),
                            ));
                        }
                        Poll::Ready(Some(Err(e)))
                    },
                    Ok(mut items) => {
                        let ghost gitems = items@;
                        proof {
                            lemma_item_events_push_ok(
                                prev_pages,
                                self.extractions@.drop_last(),
                                Ok::<S::Response, Error>(gpage),
                                Ok(gitems),
                            );
                            assert(self.extractions@.drop_last() =~= old(self).extractions());
                        }
                        if items.len() > 0 {
                            let item = items.remove(0);
                            let ghost gitem = item;
                            self.current = Some(items);
                            self.items_emitted = Ghost(self.items_emitted@.push(Ok(gitem)));
                            proof {
                                assert(self.emitted_items() + self.pending_items() =~= item_events(
                                    self.spec_stream().emitted(),
                                    self.extractions(),
                                ));
                            }
                            Poll::Ready(Some(Ok(item)))
                        } else {
                            proof {
                                assert(self.emitted_items() + self.pending_items() =~= item_events(
                                    self.spec_stream().emitted(),
                                    self.extractions(),
                                ));
                            }
                            Poll::Pending
                        }
                    },
                }
            },
        }
    }
}

impl<F: Fetcher> ItemIterator<PageDriver<F>> where F::Response: Page {
    /// Creates an item iterator from a fetch operation that will be invoked
    /// repeatedly to request each page, starting a fresh session.
    pub fn from_callback(fetcher: F) -> (r: Self)
        ensures
            r.wf(),
            r.spec_stream().wf(),
            r.spec_stream().outcomes().len() == 0,
            r.spec_stream().spec_fetcher() == fetcher,
            r.spec_current() is None,
            r.emitted_items().len() == 0,
    {
        Self::from_stream(PageDriver::new(fetcher))
    }
}

/// Iterates over whole pages of items from a service: a direct re-exposure
/// of a page stream, with no transformation. Consumers may inspect whole
/// pages (e.g. out-of-band metadata) before or instead of flattening them to
/// items.
pub struct PageIterator<S> where S: PageStream {
    stream: S,
}

impl<S> PageIterator<S> where S: PageStream {
    /// The underlying page stream.
    pub closed spec fn spec_stream(&self) -> S {
        self.stream
    }

    /// Well-formedness of the underlying stream.
    pub open spec fn wf(&self) -> bool {
        self.spec_stream().inv()
    }

    /// Creates a page iterator over a pre-built page stream.
    pub fn from_stream(stream: S) -> (r: Self)
        requires
            stream.inv(),
        ensures
            r.wf(),
            r.spec_stream() == stream,
    {
        PageIterator { stream }
    }

    /// Produces the next page-or-error element, or `None` at the end of the
    /// sequence; pulling an exhausted sequence keeps returning `None`.
    pub fn poll_next(&mut self) -> (r: Option<Result<S::Response, Error>>)
        requires
            old(self).wf(),
        ensures
            final(self).wf(),
            old(self).spec_stream().finished() ==> r is None && *final(self) == *old(self),
            (match r {
                Some(p) => !old(self).spec_stream().finished() && final(self).spec_stream().emitted() == old(self).spec_stream().emitted().push(p),
                None => final(self).spec_stream().emitted() == old(self).spec_stream().emitted()
                    && final(self).spec_stream().finished(),
            }),
    {
        self.stream.poll_page()
    }
}

impl<F: Fetcher> PageIterator<PageDriver<F>> {
    /// Creates a page iterator from a fetch operation that will be invoked
    /// repeatedly to request each page, starting a fresh session.
    pub fn from_callback(fetcher: F) -> (r: Self)
        ensures
            r.wf(),
            r.spec_stream().wf(),
            r.spec_stream().outcomes().len() == 0,
            r.spec_stream().spec_fetcher() == fetcher,
    {
        Self::from_stream(PageDriver::new(fetcher))
    }
}

impl<S> ItemIterator<S> where S: PageStream, S::Response: Page {
    /// Converts this item iterator into a page iterator over the same
    /// stream, to iterate the remaining pages whole. Items still buffered
    /// from the current page are discarded.
    pub fn into_pages(self) -> (r: PageIterator<S>)
        requires
            self.wf(),
        ensures
            r.wf(),
            r.spec_stream() == self.spec_stream(),
    {
        let ItemIterator { stream, current: _, extractions: _, items_emitted: _ } = self;
        PageIterator { stream }
    }
}

/// A pre-built, eager page sequence usable as a [`PageStream`]: the escape
/// hatch for producers that already have their page-or-error elements in
/// memory. Unlike the driver, it applies no continuation machinery: error
/// elements do not end the sequence.
pub struct PageSequence<R> {
    remaining: Vec<Result<R, Error>>,
    produced: Ghost<Seq<Result<R, Error>>>,
    full: Ghost<Seq<Result<R, Error>>>,
}

impl<R> PageSequence<R> {
    /// All elements this sequence was created over, in order.
    pub closed spec fn full(&self) -> Seq<Result<R, Error>> {
        self.full@
    }

    /// The elements produced so far, in order.
    pub closed spec fn produced(&self) -> Seq<Result<R, Error>> {
        self.produced@
    }

    /// The elements not yet produced, in order.
    pub closed spec fn remaining(&self) -> Seq<Result<R, Error>> {
        self.remaining@
    }

    /// Creates an eager page sequence that will produce exactly the given
    /// elements, in order.
    pub fn new(pages: Vec<Result<R, Error>>) -> (r: Self)
        ensures
            r.inv(),
            r.emitted().len() == 0,
            r.full() == pages@,
            r.remaining() == pages@,
    {
        let r = PageSequence { remaining: pages, produced: Ghost(Seq::empty()), full: Ghost(pages@) };
        proof {
            assert(r.emitted() + r.remaining() =~= r.full());
        }
        r
    }
}

impl<R> PageStream for PageSequence<R> {
    type Response = R;

    open spec fn emitted(&self) -> Seq<Result<R, Error>> {
        self.produced()
    }

    open spec fn finished(&self) -> bool {
        self.remaining().len() == 0
    }

    open spec fn inv(&self) -> bool {
        self.emitted() + self.remaining() == self.full()
    }

    /// Produces the next pre-built element; the sequence ends when all
    /// elements have been produced, never before.
    fn poll_page(&mut self) -> (r: Option<Result<R, Error>>)
        ensures
            final(self).full() == old(self).full(),
            !old(self).finished() ==> final(self).remaining() == old(self).remaining().drop_first(),
            !old(self).finished() ==> r == Some(old(self).remaining().first()),
    {
        if self.remaining.len() > 0 {
            let el = self.remaining.remove(0);
            self.produced = Ghost(self.produced@.push(el));
            proof {
                assert(self.emitted() + self.remaining() =~= self.full());
            }
            Some(el)
        } else {
            None
        }
    }
}

} // verus!
