//! Grouping rows into numbered data parts of a minimum size.
//!
//! A [`PartBatcher`] collects rows as they arrive from a data source and
//! hands out a data part once at least `min_rows` rows are pending; parts are
//! numbered from 1. The caller uploads each part and records the outcome,
//! which the batcher keeps as a [`StreamPartUpload`].
use vstd::prelude::*;

use crate::stream::StreamPartUpload;

verus! {

/// A data part to upload: its number and its rows.
pub struct DataPart<T> {
    pub id: usize,
    pub rows: Vec<T>,
}

/// Rows waiting to form a data part, the number of the next part, and the
/// outcomes recorded so far.
pub struct PartBatcher<T> {
    min_rows: usize,
    pending: Vec<T>,
    next_part: usize,
    results: Vec<StreamPartUpload>,
}

impl<T> PartBatcher<T> {
    pub closed spec fn min_rows_spec(&self) -> nat {
        self.min_rows as nat
    }

    /// The rows received and not yet handed out in a part.
    pub closed spec fn pending_spec(&self) -> Seq<T> {
        self.pending@
    }

    pub closed spec fn next_part_spec(&self) -> nat {
        self.next_part as nat
    }

    pub closed spec fn results_spec(&self) -> Seq<StreamPartUpload> {
        self.results@
    }

    /// A batcher that hands out parts of at least `min_rows` rows, the first
    /// numbered 1.
    pub fn new(min_rows: usize) -> (r: PartBatcher<T>)
        ensures
            r.min_rows_spec() == min_rows,
            r.pending_spec() == Seq::<T>::empty(),
            r.next_part_spec() == 1,
            r.results_spec() == Seq::<StreamPartUpload>::empty(),
    {
        PartBatcher { min_rows, pending: Vec::new(), next_part: 1, results: Vec::new() }
    }

    pub fn pending_len(&self) -> (r: usize)
        ensures
            r == self.pending_spec().len(),
    {
        self.pending.len()
    }

    pub fn next_part(&self) -> (r: usize)
        ensures
            r == self.next_part_spec(),
    {
        self.next_part
    }

    pub fn results(&self) -> (r: &Vec<StreamPartUpload>)
        ensures
            r@ == self.results_spec(),
    {
        &self.results
    }

    /// Hand out every pending row as the next part.
    fn take_part(&mut self) -> (r: DataPart<T>)
        requires
            old(self).next_part_spec() < usize::MAX,
        ensures
            r.id == old(self).next_part_spec(),
            r.rows@ == old(self).pending_spec(),
            final(self).pending_spec() == Seq::<T>::empty(),
            final(self).next_part_spec() == old(self).next_part_spec() + 1,
            final(self).min_rows_spec() == old(self).min_rows_spec(),
            final(self).results_spec() == old(self).results_spec(),
    {
        let mut rows: Vec<T> = Vec::new();
        std::mem::swap(&mut rows, &mut self.pending);
        let id = self.next_part;
        self.next_part = id + 1;
        DataPart { id, rows }
    }

    /// Add a batch of rows; once at least `min_rows` rows are pending, they
    /// all leave together as the next part.
    pub fn add_rows(&mut self, batch: Vec<T>) -> (r: Option<DataPart<T>>)
        requires
            old(self).next_part_spec() < usize::MAX,
        ensures
            final(self).min_rows_spec() == old(self).min_rows_spec(),
            final(self).results_spec() == old(self).results_spec(),
            ({
                let all = old(self).pending_spec() + batch@;
                if all.len() >= old(self).min_rows_spec() {
                    &&& r is Some
                    &&& r.unwrap().id == old(self).next_part_spec()
                    &&& r.unwrap().rows@ == all
                    &&& final(self).pending_spec() == Seq::<T>::empty()
                    &&& final(self).next_part_spec() == old(self).next_part_spec() + 1
                } else {
                    &&& r is None
                    &&& final(self).pending_spec() == all
                    &&& final(self).next_part_spec() == old(self).next_part_spec()
                }
            }),
    {
        let mut batch = batch;
        self.pending.append(&mut batch);
        if self.pending.len() >= self.min_rows {
            Some(self.take_part())
        } else {
            None
        }
    }

    /// Add one row, as [`Self::add_rows`] does with a batch of one.
    pub fn add_row(&mut self, row: T) -> (r: Option<DataPart<T>>)
        requires
            old(self).next_part_spec() < usize::MAX,
        ensures
            final(self).min_rows_spec() == old(self).min_rows_spec(),
            final(self).results_spec() == old(self).results_spec(),
            ({
                let all = old(self).pending_spec().push(row);
                if all.len() >= old(self).min_rows_spec() {
                    &&& r is Some
                    &&& r.unwrap().id == old(self).next_part_spec()
                    &&& r.unwrap().rows@ == all
                    &&& final(self).pending_spec() == Seq::<T>::empty()
                    &&& final(self).next_part_spec() == old(self).next_part_spec() + 1
                } else {
                    &&& r is None
                    &&& final(self).pending_spec() == all
                    &&& final(self).next_part_spec() == old(self).next_part_spec()
                }
            }),
    {
        self.pending.push(row);
        if self.pending.len() >= self.min_rows {
            Some(self.take_part())
        } else {
            None
        }
    }

    /// At the end of the data: the rows still pending, if any, as the last
    /// part.
    pub fn finish(&mut self) -> (r: Option<DataPart<T>>)
        requires
            old(self).next_part_spec() < usize::MAX,
        ensures
            final(self).min_rows_spec() == old(self).min_rows_spec(),
            final(self).results_spec() == old(self).results_spec(),
            final(self).pending_spec() == Seq::<T>::empty(),
            if old(self).pending_spec().len() > 0 {
                &&& r is Some
                &&& r.unwrap().id == old(self).next_part_spec()
                &&& r.unwrap().rows@ == old(self).pending_spec()
                &&& final(self).next_part_spec() == old(self).next_part_spec() + 1
            } else {
                &&& r is None
                &&& final(self).next_part_spec() == old(self).next_part_spec()
            },
    {
        if self.pending.len() > 0 {
            Some(self.take_part())
        } else {
            None
        }
    }

    /// Keep the outcome of uploading part `part_id` of `rows` rows.
    pub fn record(&mut self, part_id: usize, rows: usize, upload_successful: bool)
        ensures
            final(self).results_spec() == old(self).results_spec().push(
                StreamPartUpload { data_part_id: part_id, rows, upload_successful },
            ),
            final(self).pending_spec() == old(self).pending_spec(),
            final(self).next_part_spec() == old(self).next_part_spec(),
            final(self).min_rows_spec() == old(self).min_rows_spec(),
    {
        self.results.push(StreamPartUpload { data_part_id: part_id, rows, upload_successful });
    }

    /// The recorded outcomes, in order.
    pub fn into_results(self) -> (r: Vec<StreamPartUpload>)
        ensures
            r@ == self.results_spec(),
    {
        self.results
    }
}

} // verus!
