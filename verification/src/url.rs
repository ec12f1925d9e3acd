//! Construction of the relay's advertised address.
//!
//! The relay is reached at `ws://<local-address>:<port>`. When the machine's
//! local network address cannot be resolved, the URL falls back to a
//! loopback host name that is only reachable from the same machine. The
//! listener itself binds `0.0.0.0:<port>`: the fixed port, on all
//! interfaces. Both addresses are built here as ASCII bytes with exact
//! contracts; the host application resolves the local address and turns the
//! bytes into strings.

use vstd::prelude::*;

verus! {

/// The shortest decimal numeral of `n`, as ASCII digit bytes.
pub open spec fn dec_rep(n: nat) -> Seq<u8>
    decreases n,
{
    if n < 10 {
        seq![(48 + n) as u8]
    } else {
        dec_rep(n / 10).push((48 + n % 10) as u8)
    }
}

/// The ASCII bytes of `ws://`.
pub open spec fn ws_scheme() -> Seq<u8> {
    seq![119u8, 115u8, 58u8, 47u8, 47u8]
}

/// The ASCII bytes of `localhost`, the fallback host.
pub open spec fn localhost_host() -> Seq<u8> {
    seq![108u8, 111u8, 99u8, 97u8, 108u8, 104u8, 111u8, 115u8, 116u8]
}

/// The ASCII bytes of `0.0.0.0`: all interfaces.
pub open spec fn all_interfaces() -> Seq<u8> {
    seq![48u8, 46u8, 48u8, 46u8, 48u8, 46u8, 48u8]
}

/// The advertised URL: `ws://`, then the host — the local network address
/// when one was resolved, else the loopback fallback — then `:` and the
/// port in decimal.
pub open spec fn sync_url_spec(host: Option<Seq<u8>>, port: u16) -> Seq<u8> {
    ws_scheme() + (match host {
        Some(h) => h,
        None => localhost_host(),
    }) + seq![58u8] + dec_rep(port as nat)
}

/// The listener's bind address: all interfaces, `:`, the port in decimal.
pub open spec fn bind_addr_spec(port: u16) -> Seq<u8> {
    all_interfaces() + seq![58u8] + dec_rep(port as nat)
}

/// Appends the decimal numeral of `n`: most significant digit first, no
/// leading zeros.
pub fn push_decimal(out: &mut Vec<u8>, n: u16)
    ensures
        final(out)@ == old(out)@ + dec_rep(n as nat),
    decreases n,
{
    let ghost pre = out@;
    if n < 10 {
        out.push(48 + n as u8);
        proof {
            assert(out@ =~= pre + dec_rep(n as nat));
        }
    } else {
        push_decimal(out, n / 10);
        out.push(48 + (n % 10) as u8);
        proof {
            assert(out@ =~= pre + dec_rep(n as nat));
        }
    }
}

/// Appends every byte of `src`, in order.
pub fn push_bytes(out: &mut Vec<u8>, src: &Vec<u8>)
    ensures
        final(out)@ == old(out)@ + src@,
{
    let ghost pre = out@;
    let mut i: usize = 0;
    while i < src.len()
        invariant
            i <= src.len(),
            out@ == pre + src@.take(i as int),
        decreases src.len() - i,
    {
        let b = src[i];
        out.push(b);
        i = i + 1;
        proof {
            assert(out@ =~= pre + src@.take(i as int));
        }
    }
    proof {
        assert(src@.take(src.len() as int) =~= src@);
    }
}

/// Builds the advertised URL from the resolved local address, if any, and
/// the relay's port.
pub fn sync_url(host: Option<&Vec<u8>>, port: u16) -> (r: Vec<u8>)
    ensures
        host matches Some(h) ==> r@ == sync_url_spec(Some(h@), port),
        host is None ==> r@ == sync_url_spec(None, port),
{
    let mut r: Vec<u8> = Vec::new();
    r.push(119);
    r.push(115);
    r.push(58);
    r.push(47);
    r.push(47);
    proof {
        assert(r@ =~= ws_scheme());
    }
    match host {
        Some(h) => {
            push_bytes(&mut r, h);
        },
        None => {
            r.push(108);
            r.push(111);
            r.push(99);
            r.push(97);
            r.push(108);
            r.push(104);
            r.push(111);
            r.push(115);
            r.push(116);
            proof {
                assert(r@ =~= ws_scheme() + localhost_host());
            }
        },
    }
    r.push(58);
    push_decimal(&mut r, port);
    proof {
        if host is Some {
            assert(r@ =~= sync_url_spec(Some(host->0@), port));
        } else {
            assert(r@ =~= sync_url_spec(None, port));
        }
    }
    r
}

/// Builds the listener's bind address from the relay's port.
pub fn bind_addr(port: u16) -> (r: Vec<u8>)
    ensures
        r@ == bind_addr_spec(port),
{
    let mut r: Vec<u8> = Vec::new();
    r.push(48);
    r.push(46);
    r.push(48);
    r.push(46);
    r.push(48);
    r.push(46);
    r.push(48);
    proof {
        assert(r@ =~= all_interfaces());
    }
    r.push(58);
    push_decimal(&mut r, port);
    proof {
        assert(r@ =~= bind_addr_spec(port));
    }
    r
}

} // verus!
