//! The browser supervisor's verified core: the registry of live instance
//! ids, the backend-kind resolution by executable suffix, and the launch
//! argument list with its two patched slots.
//!
//! Spawning and signalling processes is operating-system work done by the
//! caller; the registry records the outcome and hands back the set of ids
//! to terminate on shutdown.

use crate::rewrite::is_suffix;
use crate::text::{ascii_bytes, dec_digits, ends_with, str_bytes, u32_to_dec};
use vstd::prelude::*;

verus! {

/// The set of live instance ids. Every member was recorded after a
/// successful spawn and has not yet been confirmed terminated.
pub struct InstanceRegistry {
    ids: Vec<u32>,
}

impl InstanceRegistry {
    /// The registry, seen as the set of registered ids.
    pub closed spec fn view(&self) -> Set<u32> {
        self.ids@.to_set()
    }

    /// The backing list holds each id once.
    pub closed spec fn wf(&self) -> bool {
        self.ids@.no_duplicates()
    }

    /// A fresh, empty registry.
    pub fn new() -> (r: InstanceRegistry)
        ensures
            r.wf(),
            r@ == Set::<u32>::empty(),
    {
        let r = InstanceRegistry { ids: Vec::new() };
        proof {
            assert(r@ =~= Set::<u32>::empty());
        }
        r
    }

    /// True when `id` is registered.
    pub fn contains(&self, id: u32) -> (r: bool)
        ensures
            r == self@.contains(id),
    {
        let mut k: usize = 0;
        while k < self.ids.len()
            invariant
                0 <= k <= self.ids@.len(),
                forall|m: int| 0 <= m < k ==> self.ids@[m] != id,
            decreases self.ids@.len() - k,
        {
            if self.ids[k] == id {
                assert(self@.contains(id));
                return true;
            }
            k = k + 1;
        }
        assert(!self.ids@.contains(id));
        false
    }

    /// The number of registered ids.
    pub fn len(&self) -> (n: usize)
        requires
            self.wf(),
        ensures
            n == self@.len(),
    {
        proof {
            self.ids@.unique_seq_to_set();
        }
        self.ids.len()
    }

    /// Records the outcome of one fork: a successful spawn's id joins the
    /// registry; the sentinel outcome of a failed spawn leaves it alone.
    pub fn record_fork(&mut self, id: u32)
        requires
            old(self).wf(),
        ensures
            final(self).wf(),
            id != crate::SENTINEL_INSTANCE ==> final(self)@ == old(self)@.insert(id),
            id == crate::SENTINEL_INSTANCE ==> final(self)@ == old(self)@,
    {
        if id != crate::SENTINEL_INSTANCE && !self.contains(id) {
            proof {
                broadcast use vstd::seq_lib::group_seq_properties;

                old(self).ids@.lemma_push_to_set_commute(id);
            }
            self.ids.push(id);
            proof {
                assert(self@ =~= old(self)@.insert(id));
            }
        } else {
            proof {
                if id != crate::SENTINEL_INSTANCE {
                    assert(self@ =~= old(self)@.insert(id));
                }
            }
        }
    }

    /// Empties the registry and hands back every registered id, for the
    /// caller to signal. Idempotent: on an empty registry it returns no
    /// ids and changes nothing, however many times it is called.
    pub fn take_all(&mut self) -> (victims: Vec<u32>)
        requires
            old(self).wf(),
        ensures
            final(self).wf(),
            final(self)@ == Set::<u32>::empty(),
            victims@.to_set() == old(self)@,
            victims@.no_duplicates(),
            old(self)@ == Set::<u32>::empty() ==> victims@.len() == 0 && final(self)@ == old(
                self,
            )@,
    {
        let mut victims: Vec<u32> = Vec::new();
        core::mem::swap(&mut victims, &mut self.ids);
        proof {
            assert(self@ =~= Set::<u32>::empty());
            if old(self)@ == Set::<u32>::empty() {
                if victims@.len() > 0 {
                    assert(victims@.to_set().contains(victims@[0]));
                    assert(false);
                }
            }
        }
        victims
    }
}

/// The suffixes that mark the alternate backend binary.
pub open spec fn alternate_suffix_mac() -> Seq<u8> {
    ascii_bytes("lightpanda-aarch64-macos"@)
}

/// The second alternate-backend suffix.
pub open spec fn alternate_suffix_linux() -> Seq<u8> {
    ascii_bytes("lightpanda-x86_64-linux"@)
}

/// The backend variant, resolved once from the configured executable path
/// by suffix inspection; immutable afterwards. It determines how launch
/// arguments are built.
#[derive(PartialEq, Eq, Structural, Clone, Copy, Debug)]
pub enum BackendKind {
    Primary,
    Alternate,
}

/// Resolves the backend kind from the executable path.
pub fn resolve_backend_kind(path: &[u8]) -> (k: BackendKind)
    ensures
        k == BackendKind::Alternate <==> (is_suffix(alternate_suffix_mac(), path@) || is_suffix(
            alternate_suffix_linux(),
            path@,
        )),
{
    proof {
        reveal_strlit("lightpanda-aarch64-macos");
        reveal_strlit("lightpanda-x86_64-linux");
    }
    let mac = str_bytes("lightpanda-aarch64-macos");
    let linux = str_bytes("lightpanda-x86_64-linux");
    if ends_with(path, mac.as_slice()) || ends_with(path, linux.as_slice()) {
        BackendKind::Alternate
    } else {
        BackendKind::Primary
    }
}

/// The debug bind-address flag with its value.
pub open spec fn addr_flag(address: Seq<u8>) -> Seq<u8> {
    ascii_bytes("--remote-debugging-address="@) + address
}

/// The debug port flag with its value.
pub open spec fn port_flag(p: nat) -> Seq<u8> {
    ascii_bytes("--remote-debugging-port="@) + dec_digits(p)
}

/// Renders the debug bind-address flag.
pub fn make_addr_flag(address: &[u8]) -> (v: Vec<u8>)
    ensures
        v@ == addr_flag(address@),
{
    proof {
        reveal_strlit("--remote-debugging-address=");
    }
    let mut v = str_bytes("--remote-debugging-address=");
    crate::text::append_bytes(&mut v, address);
    v
}

/// Renders the debug port flag.
pub fn make_port_flag(p: u32) -> (v: Vec<u8>)
    ensures
        v@ == port_flag(p as nat),
{
    proof {
        reveal_strlit("--remote-debugging-port=");
    }
    let mut v = str_bytes("--remote-debugging-port=");
    let digits = u32_to_dec(p);
    crate::text::append_bytes(&mut v, digits.as_slice());
    v
}

/// Patches the two mutable slots of a primary-backend launch argument
/// list: slot 0 takes the debug bind address when one is configured, and
/// slot 1 takes the debug port when one is requested. Every other
/// argument is kept unchanged and in order.
pub fn patch_launch_args(args: &mut Vec<Vec<u8>>, address: &[u8], port: Option<u32>)
    requires
        old(args)@.len() >= 2,
    ensures
        final(args)@.len() == old(args)@.len(),
        final(args)@[0]@ == if address@.len() > 0 {
            addr_flag(address@)
        } else {
            old(args)@[0]@
        },
        final(args)@[1]@ == match port {
            Some(p) => port_flag(p as nat),
            None => old(args)@[1]@,
        },
        forall|i: int| 2 <= i < old(args)@.len() ==> final(args)@[i] == old(args)@[i],
{
    if address.len() > 0 {
        let flag = make_addr_flag(address);
        args.set(0, flag);
    }
    if let Some(p) = port {
        let flag = make_port_flag(p);
        args.set(1, flag);
    }
}

/// Builds the alternate backend's argument list from its resolved host
/// and port: `--port <p> --host <host>`.
pub fn build_alternate_args(host: &[u8], p: u32) -> (args: Vec<Vec<u8>>)
    ensures
        args@.len() == 4,
        args@[0]@ == ascii_bytes("--port"@),
        args@[1]@ == dec_digits(p as nat),
        args@[2]@ == ascii_bytes("--host"@),
        args@[3]@ == host@,
{
    proof {
        reveal_strlit("--port");
        reveal_strlit("--host");
    }
    let mut args: Vec<Vec<u8>> = Vec::new();
    args.push(str_bytes("--port"));
    args.push(u32_to_dec(p));
    args.push(str_bytes("--host"));
    args.push(vstd::slice::slice_to_vec(host));
    args
}

} // verus!
