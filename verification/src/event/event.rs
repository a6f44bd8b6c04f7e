//! An event: what happened, who caused it, and to which file.

use vstd::prelude::*;
use crate::event::file::File;
use crate::event::file::FileFD;
use crate::event::file::FileFID;
use crate::event::file::FilePermission;
use crate::event::file::FileView;
use crate::event::id::EventId;
use crate::mark::Mask;

verus! {

/// An event about a file of the kind `FileT`.
#[derive(Debug, Eq, PartialEq, Hash)]
pub struct EventOf<FileT> {
    pub mask: Mask,
    pub id: EventId,
    pub file: FileT,
}

impl<FileT> EventOf<FileT> {
    /// What happened.
    pub fn mask(&self) -> (mask: Mask)
        ensures
            mask == self.mask,
    {
        self.mask
    }

    /// Who caused it.
    pub fn id(&self) -> (id: &EventId)
        ensures
            *id == self.id,
    {
        &self.id
    }

    /// The file that it happened to.
    pub fn file(&self) -> (file: &FileT)
        ensures
            *file == self.file,
    {
        &self.file
    }

    pub fn into_file(self) -> (file: FileT)
        ensures
            file == self.file,
    {
        self.file
    }
}

/// An event about a file of any kind.
pub type Event<'a> = EventOf<File<'a>>;

/// What an [`Event`] holds.
pub struct EventView {
    pub mask: Mask,
    pub id: EventId,
    pub file: FileView,
}

impl<'a> View for EventOf<File<'a>> {
    type V = EventView;

    open spec fn view(&self) -> EventView {
        EventView { mask: self.mask, id: self.id, file: self.file@ }
    }
}

impl<'a> EventOf<File<'a>> {
    /// The event, if it is about an open file.
    pub fn fd(self) -> (event: Option<EventOf<FileFD>>)
        ensures
            match self@.file {
                FileView::FD(inner) => event == Some(
                    EventOf { mask: self.mask, id: self.id, file: inner },
                ),
                _ => event is None,
            },
    {
        let EventOf { mask, id, file } = self;
        match file.fd() {
            Some(file) => Some(EventOf { mask, id, file }),
            None => None,
        }
    }

    /// The event, if it is about an identified file.
    pub fn fid(self) -> (event: Option<EventOf<FileFID<'a>>>)
        ensures
            match self@.file {
                FileView::FID(inner) => event is Some && event->Some_0.mask == self.mask
                    && event->Some_0.id == self.id && event->Some_0.file@ == inner,
                _ => event is None,
            },
    {
        let EventOf { mask, id, file } = self;
        match file.fid() {
            Some(file) => Some(EventOf { mask, id, file }),
            None => None,
        }
    }

    /// The event, if it is a request for a permission.
    pub fn permission(self) -> (event: Option<EventOf<FilePermission>>)
        ensures
            match self@.file {
                FileView::Permission(inner) => event is Some && event->Some_0.mask == self.mask
                    && event->Some_0.id == self.id && event->Some_0.file@ == inner,
                _ => event is None,
            },
    {
        let EventOf { mask, id, file } = self;
        match file.permission() {
            Some(file) => Some(EventOf { mask, id, file }),
            None => None,
        }
    }
}

} // verus!
