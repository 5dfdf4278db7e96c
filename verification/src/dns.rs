//! The DNS server's settings: whether it runs, where it listens, and the
//! upstream servers it forwards to.

use vstd::prelude::*;
use crate::error::{invalid_parameter, ErrorView, NetctlError};
use crate::text::{clone_opt_string, clone_strings, concat2, contains_char, str_eq, views};
use crate::types::opt_view;

verus! {

/// Port the server listens on unless told otherwise.
pub const DEFAULT_DNS_PORT: u16 = 53;

/// Whether a forwarder address looks like an address: it holds a dot or a
/// colon.
pub open spec fn looks_like_address(f: Seq<char>) -> bool {
    f.contains('.') || f.contains(':')
}

/// Why a forwarder address is refused when it is added, if it is.
pub open spec fn forwarder_fault(f: Seq<char>) -> Option<ErrorView> {
    if f.len() == 0 {
        Some(ErrorView::InvalidParameter("Forwarder address cannot be empty"@))
    } else if !looks_like_address(f) {
        Some(ErrorView::InvalidParameter("Invalid forwarder address format"@))
    } else {
        None
    }
}

/// Why a forwarder address is refused when the whole list is set, if it is.
pub open spec fn listed_forwarder_fault(f: Seq<char>) -> Option<ErrorView> {
    if f.len() == 0 {
        Some(ErrorView::InvalidParameter("Forwarder address cannot be empty"@))
    } else if !looks_like_address(f) {
        Some(ErrorView::InvalidParameter("Invalid forwarder address: "@ + f))
    } else {
        None
    }
}

/// The fault of the first address in `list` that has one.
pub open spec fn first_fault(list: Seq<Seq<char>>) -> Option<ErrorView>
    decreases list.len(),
{
    if list.len() == 0 {
        None
    } else if listed_forwarder_fault(list[0]) is Some {
        listed_forwarder_fault(list[0])
    } else {
        first_fault(list.drop_first())
    }
}

/// The list with `f` at its end, unless it holds `f` already.
pub open spec fn with_forwarder(list: Seq<Seq<char>>, f: Seq<char>) -> Seq<Seq<char>> {
    if list.contains(f) {
        list
    } else {
        list.push(f)
    }
}

/// The list without the first occurrence of `f`.
pub open spec fn without_forwarder(list: Seq<Seq<char>>, f: Seq<char>) -> Seq<Seq<char>> {
    if list.contains(f) {
        list.remove(list.index_of_first(f)->0)
    } else {
        list
    }
}

/// What removing `f` gives: the remaining list, or `NotFound` when the list
/// does not hold `f`.
pub open spec fn remove_outcome(list: Seq<Seq<char>>, f: Seq<char>) -> Result<
    Seq<Seq<char>>,
    ErrorView,
> {
    if list.contains(f) {
        Ok(without_forwarder(list, f))
    } else {
        Err(ErrorView::NotFound("Forwarder not found: "@ + f))
    }
}

/// Removing a forwarder that the list holds once succeeds, and removing it
/// again fails with `NotFound`. (A list that holds it several times, which
/// only setting the whole list can produce, gives it up one by one.)
pub proof fn lemma_remove_forwarder_twice(list: Seq<Seq<char>>, f: Seq<char>)
    requires
        list.contains(f),
        list.no_duplicates(),
    ensures
        remove_outcome(list, f) is Ok,
        remove_outcome(remove_outcome(list, f)->Ok_0, f) == Err::<Seq<Seq<char>>, ErrorView>(
            ErrorView::NotFound("Forwarder not found: "@ + f),
        ),
{
    list.index_of_first_ensures(f);
    let p = list.index_of_first(f)->0;
    let rest = list.remove(p);
    if rest.contains(f) {
        let j = choose|j: int| 0 <= j < rest.len() && rest[j] == f;
        let j0 = if j < p {
            j
        } else {
            j + 1
        };
        assert(list[j0] == f);
        assert(list[p] == f);
        assert(false);
    }
}

/// Adding forwarders one by one never makes the list hold one twice.
pub proof fn lemma_add_keeps_distinct(list: Seq<Seq<char>>, f: Seq<char>)
    requires
        list.no_duplicates(),
    ensures
        with_forwarder(list, f).no_duplicates(),
        with_forwarder(list, f).contains(f),
{
    if !list.contains(f) {
        let more = list.push(f);
        assert(more[list.len() as int] == f);
        assert forall|i: int, j: int| 0 <= i < more.len() && 0 <= j < more.len() && i
            != j implies more[i] != more[j] by {
            if i < list.len() {
                assert(list.contains(more[i]));
            }
            if j < list.len() {
                assert(list.contains(more[j]));
            }
        }
    }
}

/// What the server reports about itself.
#[derive(Debug)]
pub struct DnsStatus {
    /// Whether the server runs.
    pub running: bool,
    /// Address it listens on, while it runs.
    pub listen_address: Option<String>,
    /// Port it listens on.
    pub listen_port: u16,
    /// Upstream servers.
    pub forwarders: Vec<String>,
    /// Number of upstream servers.
    pub forwarder_count: usize,
}

/// The DNS server's settings.
pub struct CRDns {
    running: bool,
    forwarders: Vec<String>,
    listen_address: Option<String>,
    listen_port: u16,
}

impl CRDns {
    /// Whether the server runs.
    pub closed spec fn running(&self) -> bool {
        self.running
    }

    /// The upstream servers, in order.
    pub closed spec fn forwarders(&self) -> Seq<Seq<char>> {
        views(self.forwarders@)
    }

    /// The address the server listens on.
    pub closed spec fn listen_address(&self) -> Option<Seq<char>> {
        opt_view(self.listen_address)
    }

    /// The port the server listens on.
    pub closed spec fn listen_port(&self) -> u16 {
        self.listen_port
    }

    /// A stopped server on port 53 without forwarders.
    pub fn new() -> (r: Self)
        ensures
            !r.running(),
            r.forwarders() == Seq::<Seq<char>>::empty(),
            r.listen_address() is None,
            r.listen_port() == DEFAULT_DNS_PORT,
    {
        let r = CRDns {
            running: false,
            forwarders: Vec::new(),
            listen_address: None,
            listen_port: DEFAULT_DNS_PORT,
        };
        assert(r.forwarders() =~= Seq::<Seq<char>>::empty());
        r
    }

    /// Records whether the server runs.
    pub fn set_running(&mut self, running: bool)
        ensures
            final(self).running() == running,
            final(self).forwarders() == old(self).forwarders(),
            final(self).listen_address() == old(self).listen_address(),
            final(self).listen_port() == old(self).listen_port(),
    {
        self.running = running;
    }

    /// Adds a forwarder at the end of the list, unless the list holds it.
    pub fn add_forwarder_internal(&mut self, forwarder: String)
        ensures
            final(self).forwarders() == with_forwarder(old(self).forwarders(), forwarder@),
            final(self).running() == old(self).running(),
            final(self).listen_address() == old(self).listen_address(),
            final(self).listen_port() == old(self).listen_port(),
    {
        if !crate::text::contains_string(&self.forwarders, forwarder.as_str()) {
            let ghost prior = self.forwarders@;
            self.forwarders.push(forwarder);
            assert(views(self.forwarders@) =~= views(prior).push(forwarder@));
        }
    }

    /// Takes the first occurrence of `forwarder` out of the list and says
    /// whether there was one.
    pub fn remove_forwarder_internal(&mut self, forwarder: &str) -> (r: bool)
        ensures
            r == old(self).forwarders().contains(forwarder@),
            final(self).forwarders() == without_forwarder(old(self).forwarders(), forwarder@),
            final(self).running() == old(self).running(),
            final(self).listen_address() == old(self).listen_address(),
            final(self).listen_port() == old(self).listen_port(),
    {
        let ghost list = views(self.forwarders@);
        let mut i: usize = 0;
        while i < self.forwarders.len()
            invariant
                i <= self.forwarders.len(),
                *self == *old(self),
                list == views(self.forwarders@),
                forall|j: int| 0 <= j < i ==> list[j] != forwarder@,
            decreases self.forwarders.len() - i,
        {
            if str_eq(self.forwarders[i].as_str(), forwarder) {
                proof {
                    assert(list[i as int] == forwarder@);
                    list.index_of_first_ensures(forwarder@);
                }
                let ghost prior = self.forwarders@;
                self.forwarders.remove(i);
                assert(views(self.forwarders@) =~= views(prior).remove(i as int));
                return true;
            }
            i += 1;
        }
        false
    }

    /// Starts the server on the given address and port with the given
    /// forwarders. The address must not be empty, the port not 0, and the
    /// server not running.
    pub fn start_server(&mut self, listen_address: &str, listen_port: u16, forwarders: Vec<String>) -> (r:
        Result<(), NetctlError>)
        ensures
            match r {
                Ok(()) => {
                    &&& listen_address@.len() > 0
                    &&& listen_port != 0
                    &&& !old(self).running()
                    &&& final(self).running()
                    &&& final(self).listen_address() == Some(listen_address@)
                    &&& final(self).listen_port() == listen_port
                    &&& final(self).forwarders() == views(forwarders@)
                },
                Err(e) => {
                    &&& *final(self) == *old(self)
                    &&& e@ == (if listen_address@.len() == 0 {
                        ErrorView::InvalidParameter("Listen address cannot be empty"@)
                    } else if listen_port == 0 {
                        ErrorView::InvalidParameter("Listen port cannot be 0"@)
                    } else {
                        ErrorView::InvalidState("DNS server already running"@)
                    })
                    &&& listen_address@.len() == 0 || listen_port == 0 || old(self).running()
                },
            },
    {
        if listen_address.is_empty() {
            return Err(
                NetctlError::InvalidParameter(String::from_str("Listen address cannot be empty")),
            );
        }
        if listen_port == 0 {
            return Err(NetctlError::InvalidParameter(String::from_str("Listen port cannot be 0")));
        }
        if self.running {
            return Err(NetctlError::InvalidState(String::from_str("DNS server already running")));
        }
        self.listen_address = Some(String::from_str(listen_address));
        self.listen_port = listen_port;
        self.forwarders = forwarders;
        self.set_running(true);
        Ok(())
    }

    /// Stops the server and forgets the address it listened on. Port and
    /// forwarders stay.
    pub fn stop_server(&mut self) -> (r: Result<(), NetctlError>)
        ensures
            old(self).running() ==> {
                &&& r is Ok
                &&& !final(self).running()
                &&& final(self).listen_address() is None
                &&& final(self).listen_port() == old(self).listen_port()
                &&& final(self).forwarders() == old(self).forwarders()
            },
            !old(self).running() ==> {
                &&& r matches Err(e) && e@ == ErrorView::InvalidState("DNS server not running"@)
                &&& *final(self) == *old(self)
            },
    {
        if !self.running {
            return Err(NetctlError::InvalidState(String::from_str("DNS server not running")));
        }
        self.listen_address = None;
        self.set_running(false);
        Ok(())
    }

    /// Adds a forwarder. The address must not be empty and must hold a dot or
    /// a colon.
    pub fn add_forwarder(&mut self, forwarder: &str) -> (r: Result<(), NetctlError>)
        ensures
            final(self).running() == old(self).running(),
            final(self).listen_address() == old(self).listen_address(),
            final(self).listen_port() == old(self).listen_port(),
            match forwarder_fault(forwarder@) {
                Some(e) => r matches Err(x) && x@ == e && final(self).forwarders() == old(
                    self,
                ).forwarders(),
                None => r is Ok && final(self).forwarders() == with_forwarder(
                    old(self).forwarders(),
                    forwarder@,
                ),
            },
    {
        if forwarder.is_empty() {
            return Err(
                NetctlError::InvalidParameter(
                    String::from_str("Forwarder address cannot be empty"),
                ),
            );
        }
        if !contains_char(forwarder, '.') && !contains_char(forwarder, ':') {
            return Err(
                NetctlError::InvalidParameter(String::from_str("Invalid forwarder address format")),
            );
        }
        self.add_forwarder_internal(String::from_str(forwarder));
        Ok(())
    }

    /// Removes a forwarder.
    pub fn remove_forwarder(&mut self, forwarder: &str) -> (r: Result<(), NetctlError>)
        ensures
            final(self).running() == old(self).running(),
            final(self).listen_address() == old(self).listen_address(),
            final(self).listen_port() == old(self).listen_port(),
            match remove_outcome(old(self).forwarders(), forwarder@) {
                Ok(rest) => r is Ok && final(self).forwarders() == rest,
                Err(e) => r matches Err(x) && x@ == e && final(self).forwarders() == old(
                    self,
                ).forwarders(),
            },
    {
        if !self.remove_forwarder_internal(forwarder) {
            return Err(NetctlError::NotFound(concat2("Forwarder not found: ", forwarder)));
        }
        Ok(())
    }

    /// A copy of the forwarders.
    pub fn get_forwarders(&self) -> (r: Vec<String>)
        ensures
            views(r@) == self.forwarders(),
    {
        clone_strings(&self.forwarders)
    }

    /// What the server reports about itself.
    pub fn get_status(&self) -> (r: DnsStatus)
        ensures
            r.running == self.running(),
            opt_view(r.listen_address) == self.listen_address(),
            r.listen_port == self.listen_port(),
            views(r.forwarders@) == self.forwarders(),
            r.forwarder_count == self.forwarders().len(),
    {
        DnsStatus {
            running: self.running,
            listen_address: clone_opt_string(&self.listen_address),
            listen_port: self.listen_port,
            forwarders: clone_strings(&self.forwarders),
            forwarder_count: self.forwarders.len(),
        }
    }

    /// Whether the server runs.
    pub fn is_running(&self) -> (r: bool)
        ensures
            r == self.running(),
    {
        self.running
    }

    /// Puts `forwarders` in place of the list held so far. Every address must
    /// be non-empty and hold a dot or a colon; the first that does not is
    /// reported and nothing changes.
    pub fn set_forwarders(&mut self, forwarders: Vec<String>) -> (r: Result<(), NetctlError>)
        ensures
            final(self).running() == old(self).running(),
            final(self).listen_address() == old(self).listen_address(),
            final(self).listen_port() == old(self).listen_port(),
            match first_fault(views(forwarders@)) {
                Some(e) => r matches Err(x) && x@ == e && final(self).forwarders() == old(
                    self,
                ).forwarders(),
                None => r is Ok && final(self).forwarders() == views(forwarders@),
            },
    {
        let ghost list = views(forwarders@);
        let mut i: usize = 0;
        assert(list.subrange(0, list.len() as int) =~= list);
        while i < forwarders.len()
            invariant
                i <= forwarders.len(),
                *self == *old(self),
                list == views(forwarders@),
                first_fault(list.subrange(i as int, list.len() as int)) == first_fault(list),
            decreases forwarders.len() - i,
        {
            let f = forwarders[i].as_str();
            proof {
                let rest = list.subrange(i as int, list.len() as int);
                assert(rest[0] == f@);
                assert(rest.drop_first() =~= list.subrange(i + 1, list.len() as int));
            }
            if f.is_empty() {
                return Err(
                    NetctlError::InvalidParameter(
                        String::from_str("Forwarder address cannot be empty"),
                    ),
                );
            }
            if !contains_char(f, '.') && !contains_char(f, ':') {
                return Err(invalid_parameter("Invalid forwarder address: ", f));
            }
            i += 1;
        }
        assert(list.subrange(i as int, list.len() as int) =~= Seq::<Seq<char>>::empty());
        self.forwarders = forwarders;
        Ok(())
    }
}

impl Default for CRDns {
    fn default() -> (r: Self)
        ensures
            !r.running(),
            r.forwarders() == Seq::<Seq<char>>::empty(),
            r.listen_port() == DEFAULT_DNS_PORT,
    {
        Self::new()
    }
}

} // verus!
