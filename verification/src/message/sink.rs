// Copyright 2020 Google LLC
//
// Use of this source code is governed by an MIT-style license that can be found
// in the LICENSE file or at https://opensource.org/licenses/MIT.

//! Definitions and utilities for working with sinks.
//!
//! Sinks are ever-existing sessions on the server that listen for various
//! kinds of data. They are a way to break away from the usual
//! request-response workflow: a sink can be notified about agent startup, or
//! receive file blobs for a specialized storage.

use vstd::prelude::*;

verus! {

/// Handle to a specific sink.
#[derive(Clone, Copy, PartialEq, Eq, Debug, Hash)]
pub struct Sink {
    /// An underlying identifier of the sink.
    id: &'static str,
}

impl View for Sink {
    type V = Seq<char>;

    /// The characters of the sink's identifier.
    closed spec fn view(&self) -> Seq<char> {
        self.id@
    }
}

impl Sink {
    /// Gets the sink's unique identifier.
    pub fn id(&self) -> (id: &'static str)
        ensures
            id@ == self@,
    {
        self.id
    }
}

/// A handle to the sink expecting startup information.
pub fn startup() -> (sink: Sink)
    ensures
        sink@ == "/flows/F:Startup"@,
{
    Sink { id: "/flows/F:Startup" }
}

/// A handle to the transfer store sink.
pub fn transfer_store() -> (sink: Sink)
    ensures
        sink@ == "/flows/F:TransferStore"@,
{
    Sink { id: "/flows/F:TransferStore" }
}

} // verus!
