//! The events of a buffer by kind: all that are events at all, and those
//! about open files, about identified files, and requests for permissions.

use vstd::prelude::*;
use crate::event::error::EventError;
use crate::event::event::EventOf;
use crate::event::event::EventView;
use crate::event::file::File;
use crate::event::file::FileFD;
use crate::event::file::FileFID;
use crate::event::file::FileFIDView;
use crate::event::file::FilePermission;
use crate::event::file::FilePermissionView;
use crate::event::file::FileView;
use crate::event::iterator::spec_end_index;
use crate::event::iterator::spec_events;
use crate::event::iterator::spec_results_view;
use crate::event::iterator::EventIterator;
use crate::event::iterator::EventResult;

verus! {

/// What an event holds.
pub open spec fn spec_event_view(event: EventOf<File<'_>>) -> EventView {
    event@
}

/// What an event about an identified file holds.
pub open spec fn spec_fid_view(event: EventOf<FileFID<'_>>) -> EventOf<FileFIDView> {
    EventOf { mask: event.mask, id: event.id, file: event.file@ }
}

/// What a request for a permission holds.
pub open spec fn spec_permission_view(event: EventOf<FilePermission>) -> EventOf<
    FilePermissionView,
> {
    EventOf { mask: event.mask, id: event.id, file: event.file@ }
}

/// What each of some events holds.
pub open spec fn spec_event_views(events: Seq<EventOf<File<'_>>>) -> Seq<EventView> {
    Seq::new(events.len(), |i: int| spec_event_view(events[i]))
}

/// What each of some events about identified files holds.
pub open spec fn spec_fid_views(events: Seq<EventOf<FileFID<'_>>>) -> Seq<EventOf<FileFIDView>> {
    Seq::new(events.len(), |i: int| spec_fid_view(events[i]))
}

/// What each of some requests for permissions holds.
pub open spec fn spec_permission_views(events: Seq<EventOf<FilePermission>>) -> Seq<
    EventOf<FilePermissionView>,
> {
    Seq::new(events.len(), |i: int| spec_permission_view(events[i]))
}

/// The event that a record gives, if it gives one.
pub open spec fn spec_pick_ok(result: Result<EventView, EventError>) -> Seq<EventView> {
    match result {
        Ok(event) => seq![event],
        Err(_) => Seq::empty(),
    }
}

/// The event about an open file that a record gives, if it gives one.
pub open spec fn spec_pick_fds(result: Result<EventView, EventError>) -> Seq<EventOf<FileFD>> {
    match result {
        Ok(event) => match event.file {
            FileView::FD(file) => seq![EventOf { mask: event.mask, id: event.id, file }],
            _ => Seq::empty(),
        },
        Err(_) => Seq::empty(),
    }
}

/// The event about an identified file that a record gives, if it gives one.
pub open spec fn spec_pick_fids(result: Result<EventView, EventError>) -> Seq<
    EventOf<FileFIDView>,
> {
    match result {
        Ok(event) => match event.file {
            FileView::FID(file) => seq![EventOf { mask: event.mask, id: event.id, file }],
            _ => Seq::empty(),
        },
        Err(_) => Seq::empty(),
    }
}

/// The request for a permission that a record gives, if it gives one.
pub open spec fn spec_pick_permissions(result: Result<EventView, EventError>) -> Seq<
    EventOf<FilePermissionView>,
> {
    match result {
        Ok(event) => match event.file {
            FileView::Permission(file) => seq![EventOf { mask: event.mask, id: event.id, file }],
            _ => Seq::empty(),
        },
        Err(_) => Seq::empty(),
    }
}

/// The events among what some records give, in their order.
pub open spec fn spec_ok(results: Seq<Result<EventView, EventError>>) -> Seq<EventView>
    decreases results.len(),
{
    if results.len() == 0 {
        Seq::empty()
    } else {
        spec_ok(results.drop_last()) + spec_pick_ok(results.last())
    }
}

/// The events about open files among what some records give, in their order.
pub open spec fn spec_fds(results: Seq<Result<EventView, EventError>>) -> Seq<EventOf<FileFD>>
    decreases results.len(),
{
    if results.len() == 0 {
        Seq::empty()
    } else {
        spec_fds(results.drop_last()) + spec_pick_fds(results.last())
    }
}

/// The events about identified files among what some records give, in
/// their order.
pub open spec fn spec_fids(results: Seq<Result<EventView, EventError>>) -> Seq<
    EventOf<FileFIDView>,
>
    decreases results.len(),
{
    if results.len() == 0 {
        Seq::empty()
    } else {
        spec_fids(results.drop_last()) + spec_pick_fids(results.last())
    }
}

/// The requests for permissions among what some records give, in their order.
pub open spec fn spec_permissions(results: Seq<Result<EventView, EventError>>) -> Seq<
    EventOf<FilePermissionView>,
>
    decreases results.len(),
{
    if results.len() == 0 {
        Seq::empty()
    } else {
        spec_permissions(results.drop_last()) + spec_pick_permissions(results.last())
    }
}

/// The first `n + 1` of some items are the first `n` and the one after
/// them; and all of them are as many of them as there are.
pub proof fn lemma_one_more<A>(items: Seq<A>, n: int)
    requires
        0 <= n < items.len(),
    ensures
        items.take(n + 1).drop_last() == items.take(n),
        items.take(n + 1).last() == items[n],
        items.take(items.len() as int) == items,
        items.take(0).len() == 0,
{
    assert(items.take(n + 1).drop_last() =~= items.take(n));
    assert(items.take(items.len() as int) =~= items);
}

/// The events among some results, in their order.
pub fn keep_ok<'a>(items: Vec<EventResult<'a>>) -> (events: Vec<EventOf<File<'a>>>)
    ensures
        spec_event_views(events@) == spec_ok(spec_results_view(items@)),
{
    let ghost results = spec_results_view(items@);
    let mut events: Vec<EventOf<File<'a>>> = Vec::new();
    assert(spec_event_views(events@) =~= Seq::empty());
    for item in iter: items
        invariant
            iter.seq() == items@,
            results == spec_results_view(items@),
            spec_event_views(events@) == spec_ok(results.take(iter.index() as int)),
    {
        let ghost before = spec_event_views(events@);
        proof {
            lemma_one_more(results, iter.index() as int);
        }
        match item {
            Ok(event) => {
                events.push(event);
            },
            Err(_) => {},
        }
        assert(spec_event_views(events@) =~= before + spec_pick_ok(results[iter.index() as int]));
    }
    proof {
        if results.len() > 0 {
            lemma_one_more(results, 0);
        } else {
            assert(results.take(0) =~= results);
        }
    }
    events
}

/// The events about open files among some results, in their order.
pub fn keep_fds<'a>(items: Vec<EventResult<'a>>) -> (events: Vec<EventOf<FileFD>>)
    ensures
        events@ == spec_fds(spec_results_view(items@)),
{
    let ghost results = spec_results_view(items@);
    let mut events: Vec<EventOf<FileFD>> = Vec::new();
    assert(events@ =~= Seq::empty());
    for item in iter: items
        invariant
            iter.seq() == items@,
            results == spec_results_view(items@),
            events@ == spec_fds(results.take(iter.index() as int)),
    {
        let ghost before = events@;
        proof {
            lemma_one_more(results, iter.index() as int);
        }
        match item {
            Ok(event) => match event.fd() {
                Some(event) => {
                    events.push(event);
                },
                None => {},
            },
            Err(_) => {},
        }
        assert(events@ =~= before + spec_pick_fds(results[iter.index() as int]));
    }
    proof {
        if results.len() > 0 {
            lemma_one_more(results, 0);
        } else {
            assert(results.take(0) =~= results);
        }
    }
    events
}

/// The events about identified files among some results, in their order.
pub fn keep_fids<'a>(items: Vec<EventResult<'a>>) -> (events: Vec<EventOf<FileFID<'a>>>)
    ensures
        spec_fid_views(events@) == spec_fids(spec_results_view(items@)),
{
    let ghost results = spec_results_view(items@);
    let mut events: Vec<EventOf<FileFID<'a>>> = Vec::new();
    assert(spec_fid_views(events@) =~= Seq::empty());
    for item in iter: items
        invariant
            iter.seq() == items@,
            results == spec_results_view(items@),
            spec_fid_views(events@) == spec_fids(results.take(iter.index() as int)),
    {
        let ghost before = spec_fid_views(events@);
        proof {
            lemma_one_more(results, iter.index() as int);
        }
        match item {
            Ok(event) => match event.fid() {
                Some(event) => {
                    events.push(event);
                },
                None => {},
            },
            Err(_) => {},
        }
        assert(spec_fid_views(events@) =~= before + spec_pick_fids(results[iter.index() as int]));
    }
    proof {
        if results.len() > 0 {
            lemma_one_more(results, 0);
        } else {
            assert(results.take(0) =~= results);
        }
    }
    events
}

/// The requests for permissions among some results, in their order.
pub fn keep_permissions<'a>(items: Vec<EventResult<'a>>) -> (events: Vec<EventOf<FilePermission>>)
    ensures
        spec_permission_views(events@) == spec_permissions(spec_results_view(items@)),
{
    let ghost results = spec_results_view(items@);
    let mut events: Vec<EventOf<FilePermission>> = Vec::new();
    assert(spec_permission_views(events@) =~= Seq::empty());
    for item in iter: items
        invariant
            iter.seq() == items@,
            results == spec_results_view(items@),
            spec_permission_views(events@) == spec_permissions(results.take(iter.index() as int)),
    {
        let ghost before = spec_permission_views(events@);
        proof {
            lemma_one_more(results, iter.index() as int);
        }
        match item {
            Ok(event) => match event.permission() {
                Some(event) => {
                    events.push(event);
                },
                None => {},
            },
            Err(_) => {},
        }
        assert(spec_permission_views(events@) =~= before + spec_pick_permissions(results[iter.index() as int]));
    }
    proof {
        if results.len() > 0 {
            lemma_one_more(results, 0);
        } else {
            assert(results.take(0) =~= results);
        }
    }
    events
}

impl<'a> EventIterator<'a> {
    /// The events that the next records give, in their order, without the
    /// errors. As with [`collect`](Self::collect), up to `limit` records
    /// are looked at.
    pub fn ok(&mut self, limit: usize) -> (events: Vec<EventOf<File<'a>>>)
        ensures
            final(self).events == old(self).events,
            spec_event_views(events@) == spec_ok(
                spec_events(
                    old(self).events.buffer@,
                    old(self).read_index as int,
                    old(self).events.init,
                    old(self).events.id,
                    limit as nat,
                ),
            ),
            final(self).read_index == spec_end_index(
                old(self).events.buffer@,
                old(self).read_index as int,
                limit as nat,
            ),
    {
        keep_ok(self.collect(limit))
    }

    /// The events about open files that the next records give, in their
    /// order. Up to `limit` records are looked at.
    pub fn fds(&mut self, limit: usize) -> (events: Vec<EventOf<FileFD>>)
        ensures
            final(self).events == old(self).events,
            events@ == spec_fds(
                spec_events(
                    old(self).events.buffer@,
                    old(self).read_index as int,
                    old(self).events.init,
                    old(self).events.id,
                    limit as nat,
                ),
            ),
            final(self).read_index == spec_end_index(
                old(self).events.buffer@,
                old(self).read_index as int,
                limit as nat,
            ),
    {
        keep_fds(self.collect(limit))
    }

    /// The events about identified files that the next records give, in
    /// their order. Up to `limit` records are looked at.
    pub fn fids(&mut self, limit: usize) -> (events: Vec<EventOf<FileFID<'a>>>)
        ensures
            final(self).events == old(self).events,
            spec_fid_views(events@) == spec_fids(
                spec_events(
                    old(self).events.buffer@,
                    old(self).read_index as int,
                    old(self).events.init,
                    old(self).events.id,
                    limit as nat,
                ),
            ),
            final(self).read_index == spec_end_index(
                old(self).events.buffer@,
                old(self).read_index as int,
                limit as nat,
            ),
    {
        keep_fids(self.collect(limit))
    }

    /// The requests for permissions that the next records give, in their
    /// order. Up to `limit` records are looked at.
    pub fn permissions(&mut self, limit: usize) -> (events: Vec<EventOf<FilePermission>>)
        ensures
            final(self).events == old(self).events,
            spec_permission_views(events@) == spec_permissions(
                spec_events(
                    old(self).events.buffer@,
                    old(self).read_index as int,
                    old(self).events.init,
                    old(self).events.id,
                    limit as nat,
                ),
            ),
            final(self).read_index == spec_end_index(
                old(self).events.buffer@,
                old(self).read_index as int,
                limit as nat,
            ),
    {
        keep_permissions(self.collect(limit))
    }
}

} // verus!
