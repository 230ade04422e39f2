//! Identifiers of the window manager's objects.

use vstd::prelude::*;

verus! {

#[derive(Clone, Copy, Debug, PartialEq, Eq, Structural)]
pub struct WorkspaceId {
    pub raw: u64,
}

#[derive(Clone, Copy, Debug, PartialEq, Eq, Structural)]
pub struct WindowId {
    pub raw: u64,
}

#[derive(Clone, Copy, Debug, PartialEq, Eq, Structural)]
pub struct ColumnId {
    pub raw: u64,
}

#[derive(Clone, Copy, Debug, PartialEq, Eq, Structural)]
pub struct MonitorId {
    pub raw: u64,
}

#[derive(Clone, Copy, Debug, PartialEq, Eq, Structural)]
pub struct WorkspaceSetId {
    pub raw: u64,
}

#[derive(Clone, Copy, Debug, PartialEq, Eq, Structural)]
pub struct CorrelationId {
    pub raw: u64,
}

impl WorkspaceId {
    pub fn new(raw: u64) -> (r: Self)
        ensures
            r.raw == raw,
    {
        WorkspaceId { raw }
    }
}

impl WindowId {
    pub fn new(raw: u64) -> (r: Self)
        ensures
            r.raw == raw,
    {
        WindowId { raw }
    }
}

impl ColumnId {
    pub fn new(raw: u64) -> (r: Self)
        ensures
            r.raw == raw,
    {
        ColumnId { raw }
    }
}

impl MonitorId {
    pub fn new(raw: u64) -> (r: Self)
        ensures
            r.raw == raw,
    {
        MonitorId { raw }
    }
}

impl WorkspaceSetId {
    pub fn new(raw: u64) -> (r: Self)
        ensures
            r.raw == raw,
    {
        WorkspaceSetId { raw }
    }
}

/// Whether a window handle is one of some.
pub fn holds_hwnd(hwnds: &Vec<u64>, hwnd: u64) -> (r: bool)
    ensures
        r == hwnds@.contains(hwnd),
{
    let mut i: usize = 0;
    while i < hwnds.len()
        invariant
            i <= hwnds.len(),
            forall|j: int| 0 <= j < i ==> hwnds@[j] != hwnd,
        decreases hwnds.len() - i,
    {
        if hwnds[i] == hwnd {
            return true;
        }
        i = i + 1;
    }
    false
}

} // verus!
