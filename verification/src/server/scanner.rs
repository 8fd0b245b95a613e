//! Recording the event folders of a media root.
use vstd::prelude::*;
use crate::folders::{event_folder_parts, opt_view, parse_event_folder};

verus! {

/// What was recorded of one event folder.
pub struct EventInfo {
    pub folder_name: String,
    pub event_date: Option<String>,
    pub description: Option<String>,
    pub is_new: bool,
}

/// The outcome of scanning a media root: the number of event folders seen, how many of
/// them were recorded as new, and what was recorded.
pub struct ScanEventsResult {
    pub total: usize,
    pub new: usize,
    pub events: Vec<EventInfo>,
}

impl ScanEventsResult {
    /// Counts hold together: no more new events than events recorded, no more events
    /// recorded than folders seen, and `new` counts the recorded events marked new.
    pub open spec fn wf(&self) -> bool {
        &&& self.new <= self.events.len() <= self.total
        &&& self.new == count_new(self.events@)
    }

    /// Nothing seen yet.
    pub fn new() -> (r: Self)
        ensures
            r.wf(),
            r.total == 0,
            r.events.len() == 0,
    {
        ScanEventsResult { total: 0, new: 0, events: Vec::new() }
    }

    /// Records the event folder `folder_name`, whose insert into the catalogue gave
    /// `inserted` (the event id, or the error). The folder is always counted; it is listed
    /// only when the insert succeeded, and it counts as new when the id is not empty.
    pub fn record(&mut self, folder_name: String, inserted: Result<String, String>)
        requires
            old(self).wf(),
            old(self).total < usize::MAX,
        ensures
            final(self).wf(),
            final(self).total == old(self).total + 1,
            match inserted {
                Ok(id) => {
                    &&& final(self).events@ == old(self).events@.push(final(self).events@.last())
                    &&& final(self).events@.last().folder_name@ == folder_name@
                    &&& (opt_view(final(self).events@.last().event_date), opt_view(
                        final(self).events@.last().description,
                    )) == event_folder_parts(folder_name@)
                    &&& final(self).events@.last().is_new == (id@.len() > 0)
                },
                Err(_) => final(self).events@ == old(self).events@ && final(self).new == old(self).new,
            },
    {
        let (event_date, description) = parse_event_folder(folder_name.as_str());
        self.total = self.total + 1;
        match inserted {
            Ok(id) => {
                let is_new = !id.as_str().is_empty();
                let ghost before = self.events@;
                if is_new {
                    self.new = self.new + 1;
                }
                self.events.push(EventInfo { folder_name, event_date, description, is_new });
                proof {
                    assert(self.events@.drop_last() =~= before);
                }
            },
            Err(_) => {},
        }
    }
}

/// The number of events marked new.
pub open spec fn count_new(e: Seq<EventInfo>) -> nat
    decreases e.len(),
{
    if e.len() == 0 {
        0
    } else {
        count_new(e.drop_last()) + if e.last().is_new {
            1nat
        } else {
            0
        }
    }
}

} // verus!
