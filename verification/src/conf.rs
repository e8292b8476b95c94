//! Resolved configuration values the core consumes: default ports, the
//! fixed port-rewrite pair, the loopback host literal, and the default
//! browser binary per operating system.

use crate::text::{ascii_bytes, dec_digits, str_bytes, u32_to_dec};
use vstd::prelude::*;

verus! {

/// The conventional internal debug port.
pub const DEFAULT_DEBUG_PORT: u32 = 9223;

/// The default control-plane HTTP port.
pub const DEFAULT_CONTROL_PORT: u16 = 6000;

/// Cache entry time-to-live, in seconds.
pub const CACHE_TTL_SECS: u64 = 10;

/// Cooldown window after a failure-triggered cache invalidation, in seconds.
pub const CACHE_COOLDOWN_SECS: u64 = 10;

/// Default relay buffer size in bytes (128 KiB).
pub const DEFAULT_BUFFER_SIZE: usize = 131072;

/// The operating system family, resolved by the caller at build or start
/// time; selects the default browser binary.
#[derive(PartialEq, Eq, Structural, Clone, Copy, Debug)]
pub enum Os {
    Windows,
    MacOs,
    Linux,
    Other,
}

/// The default browser binary location per operating system, with the
/// alternative vendor binary when `brave` is set.
pub fn get_default_chrome_bin(os: Os, brave: bool) -> (r: &'static str)
    ensures
        vstd::string::is_ascii(r),
        os == Os::Windows && brave ==> r@ == "brave-browser.exe"@,
        os == Os::Windows && !brave ==> r@ == "chrome.exe"@,
        os == Os::MacOs && brave ==> r@ == "/Applications/Brave Browser.app/Contents/MacOS/Brave Browser"@,
        os == Os::MacOs && !brave ==> r@ == "/Applications/Google Chrome.app/Contents/MacOS/Google Chrome"@,
        os == Os::Linux && brave ==> r@ == "brave-browser"@,
        os == Os::Linux && !brave ==> r@ == "chromium"@,
        os == Os::Other && brave ==> r@ == "brave"@,
        os == Os::Other && !brave ==> r@ == "chrome"@,
{
    proof {
        reveal_strlit("brave-browser.exe");
        reveal_strlit("chrome.exe");
        reveal_strlit("/Applications/Brave Browser.app/Contents/MacOS/Brave Browser");
        reveal_strlit("/Applications/Google Chrome.app/Contents/MacOS/Google Chrome");
        reveal_strlit("brave-browser");
        reveal_strlit("chromium");
        reveal_strlit("brave");
        reveal_strlit("chrome");
    }
    match os {
        Os::Windows => if brave {
            "brave-browser.exe"
        } else {
            "chrome.exe"
        },
        Os::MacOs => if brave {
            "/Applications/Brave Browser.app/Contents/MacOS/Brave Browser"
        } else {
            "/Applications/Google Chrome.app/Contents/MacOS/Google Chrome"
        },
        Os::Linux => if brave {
            "brave-browser"
        } else {
            "chromium"
        },
        Os::Other => if brave {
            "brave"
        } else {
            "chrome"
        },
    }
}

/// The loopback host literal replaced inside metadata documents.
pub open spec fn loopback_host() -> Seq<u8> {
    ascii_bytes("127.0.0.1"@)
}

/// The loopback host literal, as bytes.
pub fn loopback_host_bytes() -> (v: Vec<u8>)
    ensures
        v@ == loopback_host(),
        v@.len() == 9,
{
    proof {
        reveal_strlit("127.0.0.1");
    }
    str_bytes("127.0.0.1")
}

/// A fixed-width port literal: a colon followed by the decimal digits.
pub open spec fn port_literal(p: nat) -> Seq<u8> {
    seq![58u8] + dec_digits(p)
}

/// Renders the port literal `:p`.
pub fn make_port_literal(p: u32) -> (v: Vec<u8>)
    ensures
        v@ == port_literal(p as nat),
{
    let mut v: Vec<u8> = Vec::new();
    v.push(58);
    let digits = u32_to_dec(p);
    crate::text::append_bytes(&mut v, digits.as_slice());
    proof {
        assert(seq![58u8] + dec_digits(p as nat) =~= Seq::<u8>::empty().push(58u8) + dec_digits(
            p as nat,
        ));
    }
    v
}

/// The port-rewrite pair fixed at startup: the internal port literal and
/// the external literal that replaces it, the external port paired one
/// below the internal one of the profile in use.
pub fn target_replacement(internal_port: u32) -> (r: (Vec<u8>, Vec<u8>))
    ensures
        internal_port == DEFAULT_DEBUG_PORT ==> r.0@ == port_literal(9223) && r.1@ == port_literal(
            9222,
        ),
        internal_port != DEFAULT_DEBUG_PORT ==> r.0@ == port_literal(9224) && r.1@ == port_literal(
            9223,
        ),
{
    if internal_port == DEFAULT_DEBUG_PORT {
        (make_port_literal(9223), make_port_literal(9222))
    } else {
        (make_port_literal(9224), make_port_literal(9223))
    }
}

/// The fixed literals of both port-rewrite profiles meet the rewriter's
/// compatibility conditions: substituting the external port literal can
/// neither keep nor create an occurrence of the internal port literal or
/// of the loopback host literal.
pub proof fn lemma_default_literals_compat()
    ensures
        crate::rewrite::compat(port_literal(9223), port_literal(9222)),
        crate::rewrite::compat(port_literal(9224), port_literal(9223)),
        crate::rewrite::compat(loopback_host(), port_literal(9222)),
        crate::rewrite::compat(loopback_host(), port_literal(9223)),
{
    reveal_strlit("127.0.0.1");
    reveal_with_fuel(crate::text::dec_digits, 5);
    assert(loopback_host() =~= seq![49u8, 50u8, 55u8, 46u8, 48u8, 46u8, 48u8, 46u8, 49u8]);
    assert(port_literal(9222) =~= seq![58u8, 57u8, 50u8, 50u8, 50u8]);
    assert(port_literal(9223) =~= seq![58u8, 57u8, 50u8, 50u8, 51u8]);
    assert(port_literal(9224) =~= seq![58u8, 57u8, 50u8, 50u8, 52u8]);
    crate::rewrite::lemma_compat_by_bytes(port_literal(9223), port_literal(9222));
    crate::rewrite::lemma_compat_by_bytes(port_literal(9224), port_literal(9223));
    crate::rewrite::lemma_compat_by_bytes(loopback_host(), port_literal(9222));
    crate::rewrite::lemma_compat_by_bytes(loopback_host(), port_literal(9223));
}

/// With the default profile's literals, the two-pass rewrite leaves no
/// occurrence of the loopback host literal nor of the internal port
/// literal in any body, for any hostname replacement compatible with the
/// host literal.
pub proof fn lemma_default_rewrite_clears(body: Seq<u8>, host_rep: Seq<u8>)
    requires
        crate::rewrite::compat(loopback_host(), host_rep),
    ensures
        !crate::rewrite::occurs(
            crate::rewrite::rewritten(
                body,
                loopback_host(),
                host_rep,
                port_literal(9223),
                port_literal(9222),
            ),
            loopback_host(),
        ),
        !crate::rewrite::occurs(
            crate::rewrite::rewritten(
                body,
                loopback_host(),
                host_rep,
                port_literal(9223),
                port_literal(9222),
            ),
            port_literal(9223),
        ),
{
    reveal_strlit("127.0.0.1");
    reveal_with_fuel(crate::text::dec_digits, 5);
    assert(loopback_host().len() == 9);
    assert(port_literal(9223).len() == 5);
    lemma_default_literals_compat();
    crate::rewrite::lemma_rewrite_clears_literals(
        body,
        loopback_host(),
        host_rep,
        port_literal(9223),
        port_literal(9222),
    );
}

/// The data-plane listener and dial ports for a given profile: with the
/// default internal debug port the proxy listens one below it and dials
/// the internal port; otherwise the shifted pair is used.
pub fn proxy_ports(internal_port: u32) -> (r: (u32, u32))
    ensures
        internal_port == DEFAULT_DEBUG_PORT ==> r == (9222u32, 9223u32),
        internal_port != DEFAULT_DEBUG_PORT ==> r == (9223u32, 9224u32),
{
    if internal_port == DEFAULT_DEBUG_PORT {
        (9222, 9223)
    } else {
        (9223, 9224)
    }
}

} // verus!
