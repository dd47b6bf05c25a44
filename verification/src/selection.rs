//! The device selection controller: which device is selected, and when the
//! catalog and its cache are rebuilt.
//!
//! The controller opens nothing itself. It says when a device has to be
//! opened; the caller opens it, enumerates its controls and hands the result
//! in.

use vstd::prelude::*;
use vstd::string::StringExecFns;
use crate::cache::{defaults_of, CachedDevice};
use crate::descriptor::ControlDescriptor;

verus! {

/// Why a selection did not take place.
#[derive(Clone, Copy, Debug, PartialEq, Eq, Structural)]
pub enum SelectionError {
    /// The device could not be opened.
    OpenError,
    /// The device opened but would not report its controls.
    EnumerationError,
}

/// The selection state and the cached device that belongs to it.
pub struct Selection {
    /// Path of the selected device; `None` while nothing is selected.
    pub selected: Option<String>,
    /// Label shown for the selected device.
    pub selected_name: String,
    /// Catalog and cache of the selected device.
    pub cached_device: Option<CachedDevice>,
}

/// The label shown for a device: its name, then ` @ `, then its path.
pub fn device_label(name: &str, path: &str) -> (label: String)
    ensures
        label@ == name@ + " @ "@ + path@,
{
    let mut label = name.to_owned();
    label.append(" @ ");
    label.append(path);
    label
}

impl Selection {
    /// The cached device, where there is one, pairs every descriptor with one
    /// value.
    pub open spec fn wf(&self) -> bool {
        self.cached_device matches Some(cd) ==> cd.wf()
    }

    /// A pick asks for a rebuild when it names a device and either differs
    /// from the current selection or comes with a forced refresh.
    pub open spec fn calls_for_rebuild(&self, picked: Option<String>, force_refresh: bool) -> bool {
        match picked {
            Some(p) => force_refresh || match self.selected {
                Some(q) => p@ != q@,
                None => true,
            },
            None => false,
        }
    }

    /// The initial state: nothing selected, nothing cached.
    pub fn new() -> (s: Selection)
        ensures
            s.wf(),
            s.selected is None,
            s.selected_name@ == Seq::<char>::empty(),
            s.cached_device is None,
    {
        Selection { selected: None, selected_name: String::new(), cached_device: None }
    }

    /// Whether the operator's pick requires opening the device and rebuilding
    /// the cache.
    pub fn needs_rebuild(&self, picked: &Option<String>, force_refresh: bool) -> (rebuild: bool)
        ensures
            rebuild == self.calls_for_rebuild(*picked, force_refresh),
    {
        match picked {
            Some(p) => {
                if force_refresh {
                    true
                } else {
                    match &self.selected {
                        Some(q) => !(*p == *q),
                        None => true,
                    }
                }
            },
            None => false,
        }
    }

    /// Takes in the result of opening `path` and enumerating its controls.
    /// A catalog replaces selection, label and cache wholesale: every value
    /// starts at its default and no earlier edit survives. An error leaves
    /// the whole state as it was and is handed back.
    pub fn install(
        &mut self,
        path: String,
        label: String,
        probe: Result<Vec<ControlDescriptor>, SelectionError>,
    ) -> (r: Result<(), SelectionError>)
        requires
            old(self).wf(),
        ensures
            final(self).wf(),
            match probe {
                Ok(ctrls) => {
                    &&& r is Ok
                    &&& final(self).selected == Some(path)
                    &&& final(self).selected_name == label
                    &&& final(self).cached_device is Some
                    &&& final(self).cached_device.unwrap().catalog() == ctrls@
                    &&& final(self).cached_device.unwrap().values() == defaults_of(ctrls@)
                    &&& final(self).cached_device.unwrap().snapshot() == defaults_of(ctrls@)
                },
                Err(e) => r == Err::<(), SelectionError>(e) && *final(self) == *old(self),
            },
    {
        match probe {
            Ok(ctrls) => {
                self.cached_device = Some(CachedDevice::mk(ctrls));
                self.selected = Some(path);
                self.selected_name = label;
                Ok(())
            },
            Err(e) => Err(e),
        }
    }
}

} // verus!
