use vstd::prelude::*;

use crate::ppu::{Oam, Sprite, add8, oam_step, sprite_in_range};

verus! {

/// Sprite evaluation over `n` dots of a line, from dot `start` on (the overflow reports
/// are left out).
pub open spec fn oam_dots(o: Oam, start: nat, n: nat, scanline: u8, sprites: [Sprite; 8]) -> (
    Oam,
    [Sprite; 8],
)
    decreases n,
{
    if n == 0 {
        (o, sprites)
    } else {
        let (o1, s1, _) = oam_step(o, start as usize, scanline, sprites);
        oam_dots(o1, start + 1, (n - 1) as nat, scanline, s1)
    }
}

/// The OAM entries (four bytes each) of those of the first `j` sprites that cover
/// `scanline`, in OAM order.
pub open spec fn entries_in_range(mem: Seq<u8>, scanline: u8, j: nat) -> Seq<u8>
    decreases j,
{
    if j == 0 {
        Seq::empty()
    } else {
        let before = entries_in_range(mem, scanline, (j - 1) as nat);
        let i = 4 * (j - 1);
        if sprite_in_range(mem[i], scanline) {
            before + mem.subrange(i, i + 4)
        } else {
            before
        }
    }
}

/// The dot at which the first pass of evaluation reaches sprite `j`, having copied
/// `found` bytes: a sprite out of range takes two dots, one in range eight.
spec fn pass_dot(j: nat, found: nat) -> nat {
    65 + 2 * (j + 3 * (found / 4))
}

proof fn lemma_dots_split(o: Oam, start: nat, a: nat, b: nat, scanline: u8, sprites: [Sprite; 8])
    ensures
        oam_dots(o, start, a + b, scanline, sprites) == ({
            let (o1, s1) = oam_dots(o, start, a, scanline, sprites);
            oam_dots(o1, start + a, b, scanline, s1)
        }),
    decreases a,
{
    if a > 0 {
        let (o1, s1, _) = oam_step(o, start as usize, scanline, sprites);
        lemma_dots_split(o1, start + 1, (a - 1) as nat, b, scanline, s1);
        assert((a + b - 1) as nat == (a - 1) as nat + b);
    }
}

/// The entries found among the first `j` sprites start those found among the first `k`.
proof fn lemma_entries_prefix(mem: Seq<u8>, scanline: u8, j: nat, k: nat)
    requires
        j <= k <= 64,
        mem.len() == 0x100,
    ensures
        entries_in_range(mem, scanline, k).len() % 4 == 0,
        entries_in_range(mem, scanline, k).len() <= 4 * k,
        entries_in_range(mem, scanline, j).len() <= entries_in_range(mem, scanline, k).len(),
        entries_in_range(mem, scanline, k).subrange(0, entries_in_range(mem, scanline, j).len() as int)
            == entries_in_range(mem, scanline, j),
    decreases k,
{
    if k > 0 {
        if j == k {
            lemma_entries_prefix(mem, scanline, (j - 1) as nat, (k - 1) as nat);
            assert(entries_in_range(mem, scanline, k).subrange(
                0,
                entries_in_range(mem, scanline, k).len() as int,
            ) =~= entries_in_range(mem, scanline, k));
        } else {
            lemma_entries_prefix(mem, scanline, j, (k - 1) as nat);
            let a = entries_in_range(mem, scanline, (k - 1) as nat);
            let n = entries_in_range(mem, scanline, j).len() as int;
            let i = 4 * (k - 1);
            if sprite_in_range(mem[i], scanline) {
                assert((a + mem.subrange(i, i + 4)).subrange(0, n) =~= a.subrange(0, n));
            }
        }
    }
}

/// The dots that clear the secondary OAM leave the evaluation state alone.
proof fn lemma_clear_phase(o: Oam, start: nat, n: nat, scanline: u8, sprites: [Sprite; 8])
    requires
        1 <= start,
        start + n <= 65,
    ensures
        oam_dots(o, start, n, scanline, sprites).0.mem == o.mem,
        oam_dots(o, start, n, scanline, sprites).0.sprite == o.sprite,
        oam_dots(o, start, n, scanline, sprites).0.ssprite == o.ssprite,
    decreases n,
{
    if n > 0 {
        let (o1, s1, _) = oam_step(o, start as usize, scanline, sprites);
        lemma_clear_phase(o1, start + 1, (n - 1) as nat, scanline, s1);
    }
}

/// During evaluation the secondary OAM only grows: what lies below the write index
/// stays, and the index does not go back.
proof fn lemma_eval_keeps_prefix(o: Oam, start: nat, n: nat, scanline: u8, sprites: [Sprite; 8])
    requires
        65 <= start,
        start + n <= 257,
        o.ssprite <= 0x20,
        o.ssprite % 4 != 0 ==> o.ssprite < 0x20,
    ensures
        ({
            let r = oam_dots(o, start, n, scanline, sprites).0;
            &&& r.mem == o.mem
            &&& o.ssprite <= r.ssprite <= 0x20
            &&& r.smem@.subrange(0, o.ssprite as int) == o.smem@.subrange(0, o.ssprite as int)
        }),
    decreases n,
{
    if n > 0 {
        let (o1, s1, _) = oam_step(o, start as usize, scanline, sprites);
        assert(o1.ssprite <= 0x20 && (o1.ssprite % 4 != 0 ==> o1.ssprite < 0x20));
        assert(o1.smem@.subrange(0, o.ssprite as int) =~= o.smem@.subrange(0, o.ssprite as int));
        lemma_eval_keeps_prefix(o1, start + 1, (n - 1) as nat, scanline, s1);
        let r = oam_dots(o1, start + 1, (n - 1) as nat, scanline, s1).0;
        assert(r.smem@.subrange(0, o.ssprite as int) =~= r.smem@.subrange(
            0,
            o1.ssprite as int,
        ).subrange(0, o.ssprite as int));
        assert(o1.smem@.subrange(0, o.ssprite as int) =~= o1.smem@.subrange(
            0,
            o1.ssprite as int,
        ).subrange(0, o.ssprite as int));
    }
}

/// Two dots of evaluation (a read, then a write): the byte at the OAM index goes into
/// the secondary OAM at the write index.
proof fn lemma_eval_pair(o: Oam, start: nat, scanline: u8, sprites: [Sprite; 8])
    requires
        65 <= start,
        start + 2 <= 257,
        (start - 65) % 2 == 0,
        o.ssprite < 0x20,
    ensures
        ({
            let r = oam_dots(o, start, 2, scanline, sprites);
            let y = o.mem@[o.sprite as int];
            let smem = vstd::array::spec_array_update(o.smem, o.ssprite as int, y);
            &&& r.1 == sprites
            &&& r.0.mem == o.mem
            &&& r.0.smem == smem
            &&& if o.ssprite % 4 != 0 || sprite_in_range(y, scanline) {
                r.0.ssprite == o.ssprite + 1 && r.0.sprite == add8(o.sprite, 1)
            } else {
                r.0.ssprite == o.ssprite && r.0.sprite == add8(o.sprite, 4)
            }
        }),
{
    let (o1, s1, _) = oam_step(o, start as usize, scanline, sprites);
    let (o2, s2, _) = oam_step(o1, (start + 1) as usize, scanline, s1);
    assert(oam_dots(o2, start + 2, 0, scanline, s2) == (o2, s2));
    assert(oam_dots(o1, start + 1, 1, scanline, s1) == (o2, s2));
}

/// Eight dots of evaluation on a sprite in range: its four bytes are copied after the
/// entries found so far.
#[verifier::rlimit(30)]
proof fn lemma_copy_entry(o: Oam, s: nat, j: nat, scanline: u8, sprites: [Sprite; 8])
    requires
        65 <= s,
        s + 8 <= 257,
        (s - 65) % 2 == 0,
        j < 64,
        o.mem@.len() == 0x100,
        o.sprite == 4 * j,
        o.ssprite % 4 == 0,
        o.ssprite < 0x20,
        sprite_in_range(o.mem@[4 * j as int], scanline),
    ensures
        ({
            let (r, rs) = oam_dots(o, s, 8, scanline, sprites);
            let f = o.ssprite as int;
            &&& r.mem == o.mem
            &&& r.ssprite == o.ssprite + 4
            &&& r.sprite == (4 * (j + 1)) % 0x100
            &&& r.smem@.subrange(0, f) == o.smem@.subrange(0, f)
            &&& r.smem@.subrange(f, f + 4) == o.mem@.subrange(4 * j as int, 4 * j as int + 4)
        }),
{
    let f = o.ssprite as int;
    let mem = o.mem@;
    let b = 4 * j as int;
    lemma_eval_pair(o, s, scanline, sprites);
    let (o1, s1) = oam_dots(o, s, 2, scanline, sprites);
    assert(o1.ssprite == f + 1 && o1.sprite == b + 1 && o1.mem == o.mem);
    assert(o1.smem@ == o.smem@.update(f, mem[b]));
    lemma_eval_pair(o1, s + 2, scanline, s1);
    let (o2, s2) = oam_dots(o1, s + 2, 2, scanline, s1);
    assert(o2.ssprite == f + 2 && o2.sprite == b + 2 && o2.mem == o.mem);
    assert(o2.smem@ == o1.smem@.update(f + 1, mem[b + 1]));
    lemma_eval_pair(o2, s + 4, scanline, s2);
    let (o3, s3) = oam_dots(o2, s + 4, 2, scanline, s2);
    assert(o3.ssprite == f + 3 && o3.sprite == b + 3 && o3.mem == o.mem);
    assert(o3.smem@ == o2.smem@.update(f + 2, mem[b + 2]));
    lemma_eval_pair(o3, s + 6, scanline, s3);
    let (o4, s4) = oam_dots(o3, s + 6, 2, scanline, s3);
    assert(o4.ssprite == f + 4 && o4.sprite == (b + 4) % 0x100 && o4.mem == o.mem);
    assert(o4.smem@ == o3.smem@.update(f + 3, mem[b + 3]));
    lemma_dots_split(o, s, 2, 6, scanline, sprites);
    lemma_dots_split(o1, s + 2, 2, 4, scanline, s1);
    lemma_dots_split(o2, s + 4, 2, 2, scanline, s2);
    assert(oam_dots(o, s, 8, scanline, sprites) == (o4, s4));
    assert(o4.smem@.subrange(0, f) =~= o.smem@.subrange(0, f));
    assert(o4.smem@.subrange(f, f + 4) =~= mem.subrange(b, b + 4));
}

/// The first pass of evaluation, from sprite `j` on, with the entries of the sprites
/// in range before it already copied.
#[verifier::rlimit(40)]
proof fn lemma_first_pass(o: Oam, j: nat, scanline: u8, sprites: [Sprite; 8])
    requires
        j <= 64,
        o.mem@.len() == 0x100,
        o.sprite == (4 * j) % 0x100,
        o.ssprite == entries_in_range(o.mem@, scanline, j).len(),
        o.ssprite < 0x20,
        o.smem@.subrange(0, o.ssprite as int) == entries_in_range(o.mem@, scanline, j),
    ensures
        ({
            let s = pass_dot(j, o.ssprite as nat);
            let r = oam_dots(o, s, (257 - s) as nat, scanline, sprites).0;
            let e = entries_in_range(o.mem@, scanline, 64);
            let n = if e.len() < 0x20 { e.len() } else { 0x20 };
            &&& s <= 257
            &&& r.smem@.subrange(0, n as int) == e.subrange(0, n as int)
            &&& e.len() >= 0x20 ==> r.ssprite == 0x20
            &&& r.mem == o.mem
        }),
    decreases 64 - j,
{
    let mem = o.mem@;
    let f = o.ssprite as nat;
    lemma_entries_prefix(mem, scanline, j, 64);
    lemma_entries_prefix(mem, scanline, j, j);
    let s = pass_dot(j, f);
    assert(s <= 65 + 2 * (j + 3 * 7)) by (nonlinear_arith)
        requires
            s == 65 + 2 * (j + 3 * (f / 4)),
            f < 0x20,
    ;
    let e = entries_in_range(mem, scanline, 64);
    if j == 64 {
        lemma_eval_keeps_prefix(o, s, (257 - s) as nat, scanline, sprites);
        assert(e == entries_in_range(mem, scanline, j));
    } else {
        let i = 4 * j as int;
        lemma_entries_prefix(mem, scanline, j + 1, 64);
        lemma_entries_prefix(mem, scanline, j, j + 1);
        let next = entries_in_range(mem, scanline, j + 1);
        assert(f % 4 == 0);
        assert(o.sprite == 4 * j);
        if !sprite_in_range(mem[i], scanline) {
            lemma_eval_pair(o, s, scanline, sprites);
            let (o2, s2) = oam_dots(o, s, 2, scanline, sprites);
            lemma_dots_split(o, s, 2, (257 - s - 2) as nat, scanline, sprites);
            assert(next == entries_in_range(mem, scanline, j));
            assert(o2.smem@.subrange(0, f as int) =~= o.smem@.subrange(0, f as int));
            assert(pass_dot(j + 1, f) == s + 2);
            lemma_first_pass(o2, j + 1, scanline, s2);
        } else {
            assert(next == entries_in_range(mem, scanline, j) + mem.subrange(i, i + 4));
            lemma_copy_entry(o, s, j, scanline, sprites);
            let (o4, s4) = oam_dots(o, s, 8, scanline, sprites);
            lemma_dots_split(o, s, 8, (257 - s - 8) as nat, scanline, sprites);
            assert(o4.smem@.subrange(0, f as int + 4) =~= o4.smem@.subrange(0, f as int)
                + o4.smem@.subrange(f as int, f as int + 4));
            assert(o4.smem@.subrange(0, f as int + 4) =~= next);
            if f + 4 < 0x20 {
                assert(pass_dot(j + 1, f + 4) == s + 8);
                lemma_first_pass(o4, j + 1, scanline, s4);
            } else {
                lemma_eval_keeps_prefix(o4, s + 8, (257 - s - 8) as nat, scanline, s4);
                assert(e.subrange(0, 0x20) == next);
            }
        }
    }
}

/// Sprite evaluation on a line (dots 0 to 256): the secondary OAM starts with the OAM
/// entries of the first eight sprites that cover the line, in OAM order (of all of
/// them, when fewer than eight do); when eight or more cover it, evaluation stops
/// with eight entries.
pub proof fn lemma_sprite_evaluation(o: Oam, scanline: u8, sprites: [Sprite; 8])
    ensures
        ({
            let r = oam_dots(o, 0, 257, scanline, sprites).0;
            let e = entries_in_range(o.mem@, scanline, 64);
            let n = if e.len() < 0x20 { e.len() } else { 0x20 };
            &&& r.smem@.subrange(0, n as int) == e.subrange(0, n as int)
            &&& e.len() >= 0x20 ==> r.ssprite == 0x20
            &&& r.mem == o.mem
        }),
{
    let (o1, s1, _) = oam_step(o, 0, scanline, sprites);
    assert(oam_dots(o, 0, 257, scanline, sprites) == oam_dots(o1, 1, 256, scanline, s1));
    lemma_dots_split(o1, 1, 64, 192, scanline, s1);
    lemma_clear_phase(o1, 1, 64, scanline, s1);
    let (o2, s2) = oam_dots(o1, 1, 64, scanline, s1);
    assert(o2.smem@.subrange(0, 0) =~= entries_in_range(o2.mem@, scanline, 0));
    lemma_first_pass(o2, 0, scanline, s2);
}


/// Sprite unit `u` with the first `t` bytes (Y, tile, attributes, X) of the secondary
/// OAM entry `k` loaded.
spec fn unit_loaded(u: Sprite, smem: Seq<u8>, k: int, t: int) -> Sprite {
    Sprite {
        y_pos: if t > 0 { smem[4 * k] } else { u.y_pos },
        tile: if t > 1 { smem[4 * k + 1] } else { u.tile },
        attributes: if t > 2 { smem[4 * k + 2] } else { u.attributes },
        x_pos: if t > 3 { smem[4 * k + 3] } else { u.x_pos },
        ..u
    }
}

/// The first `t` of the eight dots that load sprite unit `k` from a full secondary OAM.
#[verifier::rlimit(30)]
proof fn lemma_unit_dots(o: Oam, k: nat, t: nat, scanline: u8, sprites: [Sprite; 8])
    requires
        k < 8,
        t <= 8,
        o.ssprite == 0x20,
        k > 0 ==> o.sprite == 4 * k && o.count == 8,
    ensures
        ({
            let (r, rs) = oam_dots(o, 257 + 8 * k, t, scanline, sprites);
            let n = if t < 4 { t } else { 4 };
            &&& r.ssprite == 0x20
            &&& r.smem == o.smem
            &&& (k > 0 || t > 0) ==> r.count == 8
            &&& (k > 0 || t > 0) ==> r.sprite == 4 * k + n
            &&& rs@ == sprites@.update(k as int, unit_loaded(sprites@[k as int], o.smem@, k as int, n as int))
        }),
    decreases t,
{
    let s = 257 + 8 * k;
    if t == 0 {
        assert(sprites@.update(k as int, unit_loaded(sprites@[k as int], o.smem@, k as int, 0))
            =~= sprites@);
    } else {
        let t1 = (t - 1) as nat;
        lemma_unit_dots(o, k, t1, scanline, sprites);
        lemma_dots_split(o, s, t1, 1, scanline, sprites);
        let (a, as_) = oam_dots(o, s, t1, scanline, sprites);
        let (b, bs, _) = oam_step(a, (s + t1) as usize, scanline, as_);
        assert(oam_dots(b, s + t1 + 1, 0, scanline, bs) == (b, bs));
        assert(oam_dots(a, s + t1, 1, scanline, as_) == (b, bs));
        let c = 256 + 8 * k + t1;
        assert(c / 4 == 64 + 2 * k + t1 / 4);
        assert(c % 4 == t1 % 4);
        if t1 < 4 {
            assert((c / 4) % 2 == 0);
            assert(bs@ =~= sprites@.update(
                k as int,
                unit_loaded(sprites@[k as int], o.smem@, k as int, t as int),
            ));
        } else {
            assert((c / 4) % 2 == 1);
        }
    }
}

/// Dots 257 to 320 load the eight sprite units from a full secondary OAM.
proof fn lemma_load_units(o: Oam, k: nat, scanline: u8, sprites: [Sprite; 8])
    requires
        k <= 8,
        o.ssprite == 0x20,
    ensures
        ({
            let (r, rs) = oam_dots(o, 257, 8 * k, scanline, sprites);
            &&& r.smem == o.smem
            &&& r.ssprite == 0x20
            &&& k > 0 ==> r.count == 8 && r.sprite == 4 * k
            &&& forall|j: int| 0 <= j < k ==> #[trigger] rs@[j] == unit_loaded(sprites@[j], o.smem@, j, 4)
            &&& forall|j: int| k <= j < 8 ==> #[trigger] rs@[j] == sprites@[j]
        }),
    decreases k,
{
    if k > 0 {
        let k1 = (k - 1) as nat;
        lemma_load_units(o, k1, scanline, sprites);
        let (a, as_) = oam_dots(o, 257, 8 * k1, scanline, sprites);
        lemma_dots_split(o, 257, 8 * k1, 8, scanline, sprites);
        assert(8 * k1 + 8 == 8 * k);
        assert(257 + 8 * k1 == 257 + 8 * k1);
        lemma_unit_dots(a, k1, 8, scanline, as_);
    }
}

/// Sprite evaluation and loading on a line covered by eight sprites or more (dots 0 to
/// 320): eight sprites are counted, and the sprite units hold the Y, tile, attributes
/// and X of the first eight sprites that cover the line, in OAM order.
pub proof fn lemma_sprite_units(o: Oam, scanline: u8, sprites: [Sprite; 8])
    requires
        entries_in_range(o.mem@, scanline, 64).len() >= 0x20,
    ensures
        ({
            let (r, rs) = oam_dots(o, 0, 321, scanline, sprites);
            let e = entries_in_range(o.mem@, scanline, 64);
            &&& r.count == 8
            &&& forall|k: int|
                0 <= k < 8 ==> {
                    &&& (#[trigger] rs@[k]).y_pos == e[4 * k]
                    &&& rs@[k].tile == e[4 * k + 1]
                    &&& rs@[k].attributes == e[4 * k + 2]
                    &&& rs@[k].x_pos == e[4 * k + 3]
                }
        }),
{
    lemma_sprite_evaluation(o, scanline, sprites);
    lemma_dots_split(o, 0, 257, 64, scanline, sprites);
    let (a, as_) = oam_dots(o, 0, 257, scanline, sprites);
    lemma_load_units(a, 8, scanline, as_);
    let e = entries_in_range(o.mem@, scanline, 64);
    let rs = oam_dots(o, 0, 321, scanline, sprites).1;
    assert forall|k: int| 0 <= k < 8 implies {
        &&& (#[trigger] rs@[k]).y_pos == e[4 * k]
        &&& rs@[k].tile == e[4 * k + 1]
        &&& rs@[k].attributes == e[4 * k + 2]
        &&& rs@[k].x_pos == e[4 * k + 3]
    } by {
        assert(rs@[k] == unit_loaded(as_@[k], a.smem@, k, 4));
        assert(a.smem@.subrange(0, 0x20)[4 * k] == e.subrange(0, 0x20)[4 * k]);
        assert(a.smem@.subrange(0, 0x20)[4 * k + 1] == e.subrange(0, 0x20)[4 * k + 1]);
        assert(a.smem@.subrange(0, 0x20)[4 * k + 2] == e.subrange(0, 0x20)[4 * k + 2]);
        assert(a.smem@.subrange(0, 0x20)[4 * k + 3] == e.subrange(0, 0x20)[4 * k + 3]);
    }
}

} // verus!
