//! The pixel rows of a captured frame without the padding that the copy out
//! of device memory put after each row.
use vstd::prelude::*;

verus! {

/// The rows of `data`, each `padded` bytes long (the last may be shorter),
/// cut to their first `unpadded` bytes and joined.
pub open spec fn unpadded_rows(data: Seq<u8>, padded: int, unpadded: int) -> Seq<u8>
    decreases data.len(),
{
    if data.len() == 0 || padded <= 0 {
        Seq::empty()
    } else if data.len() <= padded {
        data.take(unpadded)
    } else {
        data.take(unpadded) + unpadded_rows(data.skip(padded), padded, unpadded)
    }
}

/// Every row of `len` bytes in rows of `padded` bytes holds at least
/// `unpadded` bytes, the shorter last row included.
pub open spec fn rows_hold(len: int, padded: int, unpadded: int) -> bool {
    &&& 0 <= unpadded <= padded
    &&& (len % padded == 0 || len % padded >= unpadded)
}

/// The rows of `data` after the first `start` bytes are one row more than
/// those after `start + padded`.
proof fn lemma_rows_step(data: Seq<u8>, start: int, padded: int, unpadded: int)
    requires
        0 <= start < data.len(),
        0 <= unpadded <= padded,
        padded > 0,
    ensures
        data.len() - start <= padded ==> unpadded_rows(data.skip(start), padded, unpadded)
            == data.skip(start).take(unpadded),
        data.len() - start > padded ==> unpadded_rows(data.skip(start), padded, unpadded)
            == data.subrange(start, start + unpadded) + unpadded_rows(
            data.skip(start + padded),
            padded,
            unpadded,
        ),
{
    if data.len() - start > padded {
        assert(data.skip(start).skip(padded) =~= data.skip(start + padded));
        assert(data.skip(start).take(unpadded) =~= data.subrange(start, start + unpadded));
    }
}

/// A last row that starts on a row boundary holds at least `unpadded`
/// bytes.
proof fn lemma_last_row_holds(n: int, start: int, padded: int, unpadded: int)
    requires
        0 <= start < n,
        padded > 0,
        start % padded == 0,
        n - start <= padded,
        rows_hold(n, padded, unpadded),
    ensures
        n - start >= unpadded,
{
    if n - start < padded {
        let q = start / padded;
        vstd::arithmetic::div_mod::lemma_fundamental_div_mod(start, padded);
        vstd::arithmetic::div_mod::lemma_fundamental_div_mod_converse(n, padded, q, n - start);
    }
}

/// A frame of whole rows keeps `unpadded` bytes of each of its rows.
pub proof fn lemma_unpadded_len(data: Seq<u8>, padded: int, unpadded: int)
    requires
        padded > 0,
        0 <= unpadded <= padded,
        data.len() as int % padded == 0,
    ensures
        unpadded_rows(data, padded, unpadded).len() == data.len() as int / padded * unpadded,
    decreases data.len(),
{
    vstd::arithmetic::div_mod::lemma_fundamental_div_mod(data.len() as int, padded);
    if data.len() == 0 {
        assert(0int / padded == 0) by (nonlinear_arith)
            requires
                padded > 0,
        ;
    } else if data.len() <= padded {
        let q = data.len() as int / padded;
        assert(q == 1) by (nonlinear_arith)
            requires
                data.len() == padded * q,
                0 < data.len() <= padded,
        ;
        assert(data.len() == padded);
        assert(data.take(unpadded).len() == unpadded);
        assert(unpadded_rows(data, padded, unpadded) == data.take(unpadded));
    } else {
        let rest = data.skip(padded);
        let q = data.len() as int / padded;
        assert(data.len() == padded * q);
        assert(rest.len() == (q - 1) * padded) by (nonlinear_arith)
            requires
                rest.len() == data.len() - padded,
                data.len() == padded * q,
        ;
        vstd::arithmetic::div_mod::lemma_fundamental_div_mod_converse(rest.len() as int, padded, q - 1, 0);
        lemma_unpadded_len(rest, padded, unpadded);
        assert((q - 1) * unpadded + unpadded == q * unpadded) by (nonlinear_arith);
        assert(unpadded_rows(data, padded, unpadded) == data.take(unpadded) + unpadded_rows(rest, padded, unpadded));
    }
}

/// A frame of `len` bytes splits into rows of `padded_bytes`, each holding
/// `unpadded_bytes` of pixels.
pub fn rows_fit(len: usize, padded_bytes: usize, unpadded_bytes: usize) -> (fit: bool)
    ensures
        fit == (padded_bytes > 0 && rows_hold(len as int, padded_bytes as int, unpadded_bytes as int)),
{
    if padded_bytes == 0 || unpadded_bytes > padded_bytes {
        return false;
    }
    let tail = len % padded_bytes;
    tail == 0 || tail >= unpadded_bytes
}

/// The pixel rows of `frame`, whose rows are `padded_bytes` long, each cut
/// to its first `unpadded_bytes` bytes.
pub fn strip_row_padding(frame: &[u8], padded_bytes: usize, unpadded_bytes: usize) -> (rows: Vec<u8>)
    requires
        padded_bytes > 0,
        rows_hold(frame@.len() as int, padded_bytes as int, unpadded_bytes as int),
    ensures
        rows@ == unpadded_rows(frame@, padded_bytes as int, unpadded_bytes as int),
{
    let n = frame.len();
    let mut rows: Vec<u8> = Vec::new();
    let mut start: usize = 0;
    assert(frame@.skip(0) =~= frame@);
    while start < n
        invariant
            n == frame@.len(),
            padded_bytes > 0,
            rows_hold(n as int, padded_bytes as int, unpadded_bytes as int),
            start <= n,
            start < n ==> (start as int) % (padded_bytes as int) == 0,
            rows@ + unpadded_rows(frame@.skip(start as int), padded_bytes as int, unpadded_bytes as int)
                == unpadded_rows(frame@, padded_bytes as int, unpadded_bytes as int),
        decreases n - start,
    {
        proof {
            lemma_rows_step(frame@, start as int, padded_bytes as int, unpadded_bytes as int);
            if n - start <= padded_bytes {
                lemma_last_row_holds(n as int, start as int, padded_bytes as int, unpadded_bytes as int);
            }
        }
        let ghost before = rows@;
        let mut j: usize = start;
        while j < start + unpadded_bytes
            invariant
                n == frame@.len(),
                start <= j <= start + unpadded_bytes <= n,
                rows@ == before + frame@.subrange(start as int, j as int),
            decreases start + unpadded_bytes - j,
        {
            rows.push(frame[j]);
            j += 1;
            assert(rows@ =~= before + frame@.subrange(start as int, j as int));
        }
        if n - start <= padded_bytes {
            assert(frame@.skip(start as int).take(unpadded_bytes as int) =~= frame@.subrange(
                start as int,
                start + unpadded_bytes,
            ));
            assert(frame@.skip(n as int).len() == 0);
            start = n;
        } else {
            proof {
                vstd::arithmetic::div_mod::lemma_mod_add_multiples_vanish(
                    start as int,
                    padded_bytes as int,
                );
            }
            start = start + padded_bytes;
        }
    }
    assert(frame@.skip(n as int).len() == 0);
    assert(rows@ =~= rows@ + Seq::<u8>::empty());
    rows
}

} // verus!
