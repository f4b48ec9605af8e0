//! The state shared, read-only, by every request: the media root, this
//! machine's addresses, the address each session reports, and the mode.

use vstd::prelude::*;
use crate::net::Ipv4;

verus! {

/// One network interface of this machine, as far as address discovery needs.
#[derive(Clone, Debug)]
pub struct Interface {
    pub is_up: bool,
    pub is_loopback: bool,
    /// The IPv4 addresses configured on it, in order.
    pub v4: Vec<Ipv4>,
}

/// Whether an interface's addresses count as this machine's usable ones.
pub open spec fn usable(i: Interface) -> bool {
    i.is_up && !i.is_loopback
}

/// The usable IPv4 addresses of the interfaces, interface by interface.
pub open spec fn usable_addrs(ifaces: Seq<Interface>) -> Seq<Ipv4>
    decreases ifaces.len(),
{
    if ifaces.len() == 0 {
        Seq::empty()
    } else {
        let last = ifaces.last();
        usable_addrs(ifaces.drop_last()) + if usable(last) {
            last.v4@
        } else {
            Seq::empty()
        }
    }
}

/// This machine's usable addresses: the IPv4 addresses of the interfaces that
/// are up and not loopback.
pub fn host_addresses(ifaces: &Vec<Interface>) -> (r: Vec<Ipv4>)
    ensures
        r@ == usable_addrs(ifaces@),
{
    let mut r: Vec<Ipv4> = Vec::new();
    let mut i: usize = 0;
    while i < ifaces.len()
        invariant
            i <= ifaces@.len(),
            r@ == usable_addrs(ifaces@.take(i as int)),
        decreases ifaces@.len() - i,
    {
        let iface = &ifaces[i];
        assert(ifaces@.take(i + 1).drop_last() =~= ifaces@.take(i as int));
        if iface.is_up && !iface.is_loopback {
            let ghost before = r@;
            let mut j: usize = 0;
            while j < iface.v4.len()
                invariant
                    j <= iface.v4@.len(),
                    r@ == before + iface.v4@.take(j as int),
                decreases iface.v4@.len() - j,
            {
                r.push(iface.v4[j]);
                j += 1;
                assert(r@ =~= before + iface.v4@.take(j as int));
            }
            assert(iface.v4@.take(j as int) =~= iface.v4@);
        } else {
            assert(r@ =~= r@ + Seq::<Ipv4>::empty());
        }
        i += 1;
    }
    assert(ifaces@.take(i as int) =~= ifaces@);
    r
}

/// What the media root turned out to be on disk.
#[derive(Clone, Copy, Debug, PartialEq, Eq, Structural)]
pub enum RootStatus {
    Missing,
    NotDirectory,
    Directory,
}

/// Why the process cannot start.
#[derive(Clone, Copy, Debug, PartialEq, Eq, Structural)]
pub enum StartupError {
    RootMissing,
    RootNotDirectory,
    NoHostAddress,
}

/// Why the process cannot start, if it cannot: the media root must be a
/// directory, and the machine must have a usable address.
pub open spec fn startup_failure(root_status: RootStatus, n_host_addrs: nat) -> Option<StartupError> {
    match root_status {
        RootStatus::Missing => Some(StartupError::RootMissing),
        RootStatus::NotDirectory => Some(StartupError::RootNotDirectory),
        RootStatus::Directory => if n_host_addrs == 0 {
            Some(StartupError::NoHostAddress)
        } else {
            None
        },
    }
}

/// Checks the conditions without which the process cannot start. Made before
/// any speaker is contacted.
pub fn check_startup(root_status: RootStatus, host_addrs: &Vec<Ipv4>) -> (r: Result<(), StartupError>)
    ensures
        match startup_failure(root_status, host_addrs@.len()) {
            Some(e) => r == Err::<(), StartupError>(e),
            None => r is Ok,
        },
{
    match root_status {
        RootStatus::Missing => Err(StartupError::RootMissing),
        RootStatus::NotDirectory => Err(StartupError::RootNotDirectory),
        RootStatus::Directory => if host_addrs.len() == 0 {
            Err(StartupError::NoHostAddress)
        } else {
            Ok(())
        },
    }
}

/// The address a session is indexed under: the one it reports, or
/// `0.0.0.0` where it reports none.
pub open spec fn index_addr(reported: Option<Ipv4>) -> Ipv4 {
    match reported {
        Some(ip) => ip,
        None => Ipv4::spec_unspecified(),
    }
}

/// The first position at which `addrs` holds `target`, if any.
pub open spec fn first_match(addrs: Seq<Ipv4>, target: Ipv4) -> Option<int> {
    if exists|i: int| 0 <= i < addrs.len() && addrs[i] == target {
        Some(choose|i: int| 0 <= i < addrs.len() && addrs[i] == target
            && forall|j: int| 0 <= j < i ==> addrs[j] != target)
    } else {
        None
    }
}

/// The session at the first position whose address is `target`, if any.
pub fn resolve_session(addrs: &Vec<Ipv4>, target: Ipv4) -> (r: Option<usize>)
    ensures
        match r {
            Some(i) => i < addrs@.len() && addrs@[i as int] == target
                && forall|j: int| 0 <= j < i ==> addrs@[j] != target,
            None => !addrs@.contains(target),
        },
        r matches Some(i) ==> first_match(addrs@, target) == Some(i as int),
        r is None <==> first_match(addrs@, target) is None,
{
    let mut i: usize = 0;
    while i < addrs.len()
        invariant
            i <= addrs@.len(),
            forall|j: int| 0 <= j < i ==> addrs@[j] != target,
        decreases addrs@.len() - i,
    {
        if addrs[i] == target {
            proof {
                let k = choose|k: int| 0 <= k < addrs@.len() && addrs@[k] == target
                    && forall|j: int| 0 <= j < k ==> addrs@[j] != target;
                assert(k == i as int);
            }
            return Some(i);
        }
        i += 1;
    }
    None
}

/// The process-wide state, built once before any request is served.
#[derive(Clone, Debug)]
pub struct OperationEnv {
    /// The root under which media files are listed and served.
    pub root: String,
    /// This machine's usable addresses; never empty.
    pub host_addrs: Vec<Ipv4>,
    /// Session `i` is reachable at `session_addrs[i]`.
    pub session_addrs: Vec<Ipv4>,
    /// Whether the API is open beyond this machine.
    pub server_mode: bool,
}

impl OperationEnv {
    pub open spec fn wf(&self) -> bool {
        self.host_addrs@.len() > 0
    }

    /// Assembles the environment. `reported[i]` is the address that session
    /// `i` reports, if it could report one.
    pub fn new(
        root: String,
        root_status: RootStatus,
        reported: Vec<Option<Ipv4>>,
        host_addrs: Vec<Ipv4>,
        server_mode: bool,
    ) -> (r: Result<OperationEnv, StartupError>)
        ensures
            root_status == RootStatus::Missing ==> r == Err::<OperationEnv, StartupError>(
                StartupError::RootMissing,
            ),
            root_status == RootStatus::NotDirectory ==> r == Err::<OperationEnv, StartupError>(
                StartupError::RootNotDirectory,
            ),
            root_status == RootStatus::Directory && host_addrs@.len() == 0 ==> r == Err::<
                OperationEnv,
                StartupError,
            >(StartupError::NoHostAddress),
            r is Ok <==> root_status == RootStatus::Directory && host_addrs@.len() > 0,
            r matches Ok(env) ==> {
                &&& env.wf()
                &&& env.root == root
                &&& env.host_addrs@ == host_addrs@
                &&& env.server_mode == server_mode
                &&& env.session_addrs@.len() == reported@.len()
                &&& forall|i: int|
                    0 <= i < reported@.len() ==> env.session_addrs@[i] == index_addr(
                        #[trigger] reported@[i],
                    )
            },
    {
        match check_startup(root_status, &host_addrs) {
            Err(e) => {
                return Err(e);
            },
            Ok(()) => {},
        }
        let mut session_addrs: Vec<Ipv4> = Vec::new();
        let mut i: usize = 0;
        while i < reported.len()
            invariant
                i <= reported@.len(),
                session_addrs@.len() == i,
                forall|j: int| 0 <= j < i ==> session_addrs@[j] == index_addr(#[trigger] reported@[j]),
            decreases reported@.len() - i,
        {
            let ip = match reported[i] {
                Some(ip) => ip,
                None => Ipv4::unspecified(),
            };
            session_addrs.push(ip);
            i += 1;
        }
        Ok(OperationEnv { root, host_addrs, session_addrs, server_mode })
    }

    /// Whether `ip` is the address of a known session.
    pub fn is_known_device(&self, ip: Ipv4) -> (r: bool)
        ensures
            r == self.session_addrs@.contains(ip),
    {
        resolve_session(&self.session_addrs, ip).is_some()
    }
}

} // verus!
