//! The process's bootstrap context: cluster identity and scheduler label.
//!
//! The cluster identity is a sixteen-byte unique identifier fetched once
//! from the database at pool bootstrap.  It is rendered in the usual
//! hyphenated lowercase hexadecimal form for telemetry, and the rendered
//! context is immutable for the rest of the process lifetime: it is built
//! once and only ever read.

use vstd::prelude::*;

verus! {

/// ASCII code of the lowercase hexadecimal digit for a value below
/// sixteen.
pub open spec fn hex_digit(d: u8) -> u8
    recommends
        d < 16,
{
    if d < 10 {
        (48 + d) as u8
    } else {
        (87 + d) as u8
    }
}

/// Lowercase hexadecimal rendering of a byte string, two digits per byte.
pub open spec fn hex_of(b: Seq<u8>) -> Seq<u8>
    decreases b.len(),
{
    if b.len() == 0 {
        Seq::empty()
    } else {
        hex_of(b.drop_last()) + seq![
            hex_digit((b.last() / 16) as u8),
            hex_digit((b.last() % 16) as u8),
        ]
    }
}

/// The hyphenated rendering of a sixteen-byte identifier: five hexadecimal
/// groups of 8, 4, 4, 4 and 12 digits, joined by hyphens (ASCII 45).
pub open spec fn hyphenated_of(b: Seq<u8>) -> Seq<u8>
    recommends
        b.len() == 16,
{
    hex_of(b.subrange(0, 4)) + seq![45u8] + hex_of(b.subrange(4, 6)) + seq![45u8] + hex_of(
        b.subrange(6, 8),
    ) + seq![45u8] + hex_of(b.subrange(8, 10)) + seq![45u8] + hex_of(b.subrange(10, 16))
}

/// The cluster identity: the sixteen bytes of the identifier persisted in
/// the database's bootstrap table.
#[derive(Clone, Copy)]
pub struct ClusterId {
    pub bytes: [u8; 16],
}

/// ASCII code of the lowercase hexadecimal digit for `d`.
fn hex_digit_byte(d: u8) -> (r: u8)
    requires
        d < 16,
    ensures
        r == hex_digit(d),
{
    if d < 10 {
        48 + d
    } else {
        87 + d
    }
}

/// Appends the hexadecimal rendering of `bytes[from..to]` to `out`.
fn push_hex(out: &mut Vec<u8>, bytes: &[u8; 16], from: usize, to: usize)
    requires
        from <= to <= 16,
    ensures
        final(out)@ == old(out)@ + hex_of(bytes@.subrange(from as int, to as int)),
{
    let mut i = from;
    proof {
        assert(bytes@.subrange(from as int, from as int) =~= Seq::<u8>::empty());
        assert(old(out)@ + hex_of(bytes@.subrange(from as int, from as int)) =~= old(out)@);
    }
    while i < to
        invariant
            from <= i <= to <= 16,
            bytes@.len() == 16,
            out@ == old(out)@ + hex_of(bytes@.subrange(from as int, i as int)),
        decreases to - i,
    {
        let ghost shorter = bytes@.subrange(from as int, i as int);
        let ghost longer = bytes@.subrange(from as int, i + 1);
        proof {
            assert(longer.drop_last() =~= shorter);
            assert(longer.last() == bytes@[i as int]);
        }
        let b = bytes[i];
        out.push(hex_digit_byte(b / 16));
        out.push(hex_digit_byte(b % 16));
        proof {
            assert(out@ =~= old(out)@ + hex_of(longer));
        }
        i += 1;
    }
}

impl ClusterId {
    /// The identity in hyphenated lowercase hexadecimal form, as ASCII
    /// bytes: the form used to tag telemetry for the process group.
    pub fn hyphenated_ascii(&self) -> (s: Vec<u8>)
        ensures
            s@ == hyphenated_of(self.bytes@),
    {
        let mut s: Vec<u8> = Vec::new();
        push_hex(&mut s, &self.bytes, 0, 4);
        s.push(45);
        push_hex(&mut s, &self.bytes, 4, 6);
        s.push(45);
        push_hex(&mut s, &self.bytes, 6, 8);
        s.push(45);
        push_hex(&mut s, &self.bytes, 8, 10);
        s.push(45);
        push_hex(&mut s, &self.bytes, 10, 16);
        proof {
            assert(s@ =~= hyphenated_of(self.bytes@));
        }
        s
    }
}

/// The scheduler label surfaced in startup telemetry: what the
/// environment supplied, or the default.
pub fn scheduler_label(supplied: Option<String>) -> (s: String)
    ensures
        supplied is Some ==> s@ == supplied->0@,
        supplied is None ==> s@ == "process"@,
{
    match supplied {
        Some(s) => s,
        None => String::from_str("process"),
    }
}

/// The immutable bootstrap context: constructed once when the pool is
/// established, then only read.  No component mutates it afterwards —
/// nothing here takes it mutably.
pub struct BootstrapContext {
    pub cluster_id: ClusterId,
    pub scheduler: String,
}

impl BootstrapContext {
    /// Builds the context from the fetched identity and the environment's
    /// scheduler setting.
    pub fn new(cluster_id: ClusterId, scheduler: Option<String>) -> (c: BootstrapContext)
        ensures
            c.cluster_id == cluster_id,
            scheduler is Some ==> c.scheduler@ == scheduler->0@,
            scheduler is None ==> c.scheduler@ == "process"@,
    {
        BootstrapContext { cluster_id, scheduler: scheduler_label(scheduler) }
    }
}

} // verus!
