//! Additive mixing of simultaneous mono streams.
//!
//! Every present stream contributes its sample value at each instant; the
//! sum is clamped to the signed 16-bit range. A stream shorter than the
//! longest one contributes silence past its end.

use vstd::prelude::*;

verus! {

/// The length of the longest stream.
pub open spec fn max_len(streams: Seq<Seq<i16>>) -> int
    decreases streams.len(),
{
    if streams.len() == 0 {
        0
    } else {
        let rest = max_len(streams.drop_last());
        let last = streams.last().len() as int;
        if last > rest {
            last
        } else {
            rest
        }
    }
}

/// The sum of all streams' samples at instant `i`; a stream with no sample
/// there contributes nothing.
pub open spec fn sum_at(streams: Seq<Seq<i16>>, i: int) -> int
    decreases streams.len(),
{
    if streams.len() == 0 {
        0
    } else {
        sum_at(streams.drop_last(), i) + (if 0 <= i < streams.last().len() {
            streams.last()[i] as int
        } else {
            0
        })
    }
}

/// A value clamped to the signed 16-bit range.
pub open spec fn clamp_i16(v: int) -> i16 {
    if v > 0x7FFF {
        0x7FFFi16
    } else if v < -0x8000 {
        (-0x8000) as i16
    } else {
        v as i16
    }
}

/// The mixed signal: as long as the longest stream, the clamped sum of all
/// streams at each instant.
pub open spec fn mixed(streams: Seq<Seq<i16>>) -> Seq<i16> {
    Seq::new(max_len(streams) as nat, |i: int| clamp_i16(sum_at(streams, i)))
}

/// The views of a vector of sample vectors.
pub open spec fn stream_views(streams: Seq<Vec<i16>>) -> Seq<Seq<i16>> {
    streams.map_values(|v: Vec<i16>| v@)
}

/// The longest stream's length is an upper bound for every stream.
pub proof fn lemma_max_len_bound(streams: Seq<Seq<i16>>, t: int)
    requires
        0 <= t < streams.len(),
    ensures
        streams[t].len() <= max_len(streams),
        max_len(streams) >= 0,
    decreases streams.len(),
{
    if t + 1 < streams.len() {
        lemma_max_len_bound(streams.drop_last(), t);
    }
}

/// Mixes all streams additively into one stream, clamping each summed
/// sample to the signed 16-bit range.
pub fn mix(streams: &Vec<Vec<i16>>) -> (r: Vec<i16>)
    requires
        streams@.len() <= 0x8000,
    ensures
        r@ == mixed(stream_views(streams@)),
        r@.len() == max_len(stream_views(streams@)),
{
    let ghost views = stream_views(streams@);
    let mut longest: usize = 0;
    let mut t: usize = 0;
    while t < streams.len()
        invariant
            t <= streams@.len(),
            views == stream_views(streams@),
            longest == max_len(views.subrange(0, t as int)),
        decreases streams@.len() - t,
    {
        proof {
            assert(views.subrange(0, t as int + 1).drop_last() =~= views.subrange(0, t as int));
        }
        if streams[t].len() > longest {
            longest = streams[t].len();
        }
        t += 1;
    }
    proof {
        assert(views.subrange(0, streams@.len() as int) =~= views);
    }
    let mut acc: Vec<i64> = Vec::new();
    let mut i: usize = 0;
    while i < longest
        invariant
            acc@.len() == i,
            i <= longest,
            forall|p: int| 0 <= p < i ==> acc@[p] == 0i64,
        decreases longest - i,
    {
        acc.push(0);
        i += 1;
    }
    let mut t: usize = 0;
    while t < streams.len()
        invariant
            t <= streams@.len(),
            streams@.len() <= 0x8000,
            views == stream_views(streams@),
            longest == max_len(views),
            acc@.len() == longest,
            forall|p: int|
                0 <= p < acc@.len() ==> acc@[p] == sum_at(views.subrange(0, t as int), p),
            forall|p: int|
                0 <= p < acc@.len() ==> -0x8000 * (t as int) <= #[trigger] acc@[p] <= 0x7FFF * (
                t as int),
        decreases streams@.len() - t,
    {
        let ghost pre = views.subrange(0, t as int);
        let ghost post = views.subrange(0, t as int + 1);
        proof {
            assert(post.drop_last() =~= pre);
            lemma_max_len_bound(views, t as int);
        }
        let stream = &streams[t];
        let mut k: usize = 0;
        while k < stream.len()
            invariant
                t < streams@.len(),
                streams@.len() <= 0x8000,
                views == stream_views(streams@),
                stream@ == views[t as int],
                k <= stream@.len(),
                stream@.len() <= acc@.len(),
                post == views.subrange(0, t as int + 1),
                pre == views.subrange(0, t as int),
                post.drop_last() == pre,
                post.last() == stream@,
                acc@.len() == longest,
                forall|p: int| 0 <= p < k ==> acc@[p] == sum_at(post, p),
                forall|p: int| k <= p < acc@.len() ==> acc@[p] == sum_at(pre, p),
                forall|p: int|
                    0 <= p < k ==> -0x8000 * (t as int + 1) <= #[trigger] acc@[p] <= 0x7FFF * (
                    t as int + 1),
                forall|p: int|
                    k <= p < acc@.len() ==> -0x8000 * (t as int) <= #[trigger] acc@[p]
                        <= 0x7FFF * (t as int),
            decreases stream@.len() - k,
        {
            let v = acc[k] + (stream[k] as i64);
            acc[k] = v;
            proof {
                assert(sum_at(post, k as int) == sum_at(pre, k as int) + stream@[k as int]);
            }
            k += 1;
        }
        proof {
            assert forall|p: int| 0 <= p < acc@.len() implies acc@[p] == sum_at(post, p) by {
                if p >= stream@.len() {
                    assert(sum_at(post, p) == sum_at(pre, p));
                }
            }
        }
        t += 1;
        proof {
            assert(views.subrange(0, t as int) == post);
        }
    }
    let mut out: Vec<i16> = Vec::new();
    let mut p: usize = 0;
    while p < acc.len()
        invariant
            acc@.len() == longest,
            longest == max_len(views),
            p <= acc@.len(),
            out@.len() == p,
            forall|q: int| 0 <= q < acc@.len() ==> acc@[q] == sum_at(views, q),
            forall|q: int| 0 <= q < p ==> out@[q] == clamp_i16(sum_at(views, q)),
        decreases acc@.len() - p,
    {
        let v = acc[p];
        let s: i16 = if v > 0x7FFF {
            0x7FFF
        } else if v < -0x8000 {
            -0x8000
        } else {
            v as i16
        };
        out.push(s);
        p += 1;
    }
    proof {
        assert(views.subrange(0, streams@.len() as int) =~= views);
        assert(out@ =~= mixed(views));
    }
    out
}

} // verus!
