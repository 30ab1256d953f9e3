//! Selection state of the interactive server and provider menus. Moving past
//! either end of a list wraps around.

use vstd::prelude::*;
use crate::domain::cluster::{CloudProvider, ServerInfo};

verus! {

/// The highlighted position in a list of `len` entries.
#[derive(Debug, Clone, Copy, PartialEq, Eq, Structural)]
pub struct ListCursor {
    pub len: usize,
    pub selected: Option<usize>,
}

impl ListCursor {
    pub open spec fn well_formed(&self) -> bool {
        &&& self.selected matches Some(i) ==> i < self.len
        &&& self.len > 0 ==> self.selected is Some
    }

    /// The first entry is highlighted, when there is one.
    pub fn new(len: usize) -> (r: Self)
        ensures
            r.well_formed(),
            r.len == len,
            r.selected == if len == 0 { None } else { Some(0usize) },
    {
        ListCursor { len, selected: if len == 0 { None } else { Some(0) } }
    }

    pub fn next(&mut self)
        requires
            old(self).well_formed(),
        ensures
            final(self).well_formed(),
            final(self).len == old(self).len,
            old(self).len == 0 ==> final(self).selected == old(self).selected,
            old(self).len > 0 ==> final(self).selected == Some(
                (if old(self).selected->0 + 1 == old(self).len { 0 } else { old(self).selected->0 + 1 }) as usize,
            ),
    {
        if self.len == 0 {
            return;
        }
        let i = match self.selected {
            Some(i) => if i + 1 == self.len {
                0
            } else {
                i + 1
            },
            None => 0,
        };
        self.selected = Some(i);
    }

    pub fn previous(&mut self)
        requires
            old(self).well_formed(),
        ensures
            final(self).well_formed(),
            final(self).len == old(self).len,
            old(self).len == 0 ==> final(self).selected == old(self).selected,
            old(self).len > 0 ==> final(self).selected == Some(
                (if old(self).selected->0 == 0 { old(self).len - 1 } else { old(self).selected->0 - 1 }) as usize,
            ),
    {
        if self.len == 0 {
            return;
        }
        let i = match self.selected {
            Some(i) => if i == 0 {
                self.len - 1
            } else {
                i - 1
            },
            None => 0,
        };
        self.selected = Some(i);
    }
}

/// The server menu: the servers and the highlighted one.
pub struct ServerSelector {
    servers: Vec<ServerInfo>,
    cursor: ListCursor,
}

impl ServerSelector {
    pub closed spec fn well_formed(&self) -> bool {
        self.cursor.well_formed() && self.cursor.len == self.servers@.len()
    }

    pub closed spec fn items(&self) -> Seq<ServerInfo> {
        self.servers@
    }

    pub closed spec fn selection(&self) -> Option<usize> {
        self.cursor.selected
    }

    pub fn new(servers: Vec<ServerInfo>) -> (r: Self)
        ensures
            r.well_formed(),
            r.items() == servers@,
            r.selection() == if servers@.len() == 0 { None } else { Some(0usize) },
    {
        let cursor = ListCursor::new(servers.len());
        ServerSelector { servers, cursor }
    }

    pub fn next(&mut self)
        requires
            old(self).well_formed(),
        ensures
            final(self).well_formed(),
            final(self).items() == old(self).items(),
            old(self).items().len() == 0 ==> final(self).selection() == old(self).selection(),
            old(self).items().len() > 0 ==> final(self).selection() == Some(
                (if old(self).selection()->0 + 1 == old(self).items().len() { 0 } else { old(self).selection()->0 + 1 }) as usize,
            ),
    {
        self.cursor.next();
    }

    pub fn previous(&mut self)
        requires
            old(self).well_formed(),
        ensures
            final(self).well_formed(),
            final(self).items() == old(self).items(),
            old(self).items().len() == 0 ==> final(self).selection() == old(self).selection(),
            old(self).items().len() > 0 ==> final(self).selection() == Some(
                (if old(self).selection()->0 == 0 { old(self).items().len() - 1 } else { old(self).selection()->0 - 1 }) as usize,
            ),
    {
        self.cursor.previous();
    }

    pub fn selected_index(&self) -> (r: Option<usize>)
        ensures
            r == self.selection(),
    {
        self.cursor.selected
    }

    pub fn servers(&self) -> (r: &Vec<ServerInfo>)
        ensures
            r@ == self.items(),
    {
        &self.servers
    }

    pub fn get_selected(&self) -> (r: Option<&ServerInfo>)
        requires
            self.well_formed(),
        ensures
            match self.selection() {
                Some(i) => r == Some(&self.items()[i as int]),
                None => r is None,
            },
    {
        match self.cursor.selected {
            Some(i) => Some(&self.servers[i]),
            None => None,
        }
    }
}

/// The provider menu: the providers and the highlighted one.
pub struct CloudProviderSelector {
    providers: Vec<CloudProvider>,
    cursor: ListCursor,
}

impl CloudProviderSelector {
    pub closed spec fn well_formed(&self) -> bool {
        self.cursor.well_formed() && self.cursor.len == self.providers@.len()
    }

    pub closed spec fn items(&self) -> Seq<CloudProvider> {
        self.providers@
    }

    pub closed spec fn selection(&self) -> Option<usize> {
        self.cursor.selected
    }

    pub fn new(providers: Vec<CloudProvider>) -> (r: Self)
        ensures
            r.well_formed(),
            r.items() == providers@,
            r.selection() == if providers@.len() == 0 { None } else { Some(0usize) },
    {
        let cursor = ListCursor::new(providers.len());
        CloudProviderSelector { providers, cursor }
    }

    pub fn next(&mut self)
        requires
            old(self).well_formed(),
        ensures
            final(self).well_formed(),
            final(self).items() == old(self).items(),
            old(self).items().len() == 0 ==> final(self).selection() == old(self).selection(),
            old(self).items().len() > 0 ==> final(self).selection() == Some(
                (if old(self).selection()->0 + 1 == old(self).items().len() { 0 } else { old(self).selection()->0 + 1 }) as usize,
            ),
    {
        self.cursor.next();
    }

    pub fn previous(&mut self)
        requires
            old(self).well_formed(),
        ensures
            final(self).well_formed(),
            final(self).items() == old(self).items(),
            old(self).items().len() == 0 ==> final(self).selection() == old(self).selection(),
            old(self).items().len() > 0 ==> final(self).selection() == Some(
                (if old(self).selection()->0 == 0 { old(self).items().len() - 1 } else { old(self).selection()->0 - 1 }) as usize,
            ),
    {
        self.cursor.previous();
    }

    pub fn selected_index(&self) -> (r: Option<usize>)
        ensures
            r == self.selection(),
    {
        self.cursor.selected
    }

    pub fn providers(&self) -> (r: &Vec<CloudProvider>)
        ensures
            r@ == self.items(),
    {
        &self.providers
    }

    pub fn get_selected(&self) -> (r: Option<&CloudProvider>)
        requires
            self.well_formed(),
        ensures
            match self.selection() {
                Some(i) => r == Some(&self.items()[i as int]),
                None => r is None,
            },
    {
        match self.cursor.selected {
            Some(i) => Some(&self.providers[i]),
            None => None,
        }
    }

    /// Takes the highlighted provider out of the menu.
    pub fn into_selected(self) -> (r: Option<CloudProvider>)
        requires
            self.well_formed(),
        ensures
            match self.selection() {
                Some(i) => r == Some(self.items()[i as int]),
                None => r is None,
            },
    {
        match self.cursor.selected {
            Some(i) => {
                let mut providers = self.providers;
                Some(providers.swap_remove(i))
            },
            None => None,
        }
    }
}

} // verus!
