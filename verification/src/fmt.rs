//! Minimal textual formatting for the output channel: decimal rendering of
//! unsigned integers and a template interpolation facility with positional
//! `{}` placeholders.

use vstd::prelude::*;

verus! {

use vstd::string::*;

/// The decimal digit characters of `n`, as ASCII bytes, most significant
/// digit first, with no leading zeros (`0` itself is the single byte `b'0'`).
pub open spec fn dec_digits(n: nat) -> Seq<u8>
    decreases n,
{
    if n < 10 {
        seq![(48 + n) as u8]
    } else {
        dec_digits(n / 10) + seq![(48 + n % 10) as u8]
    }
}

/// Renders `n` as its decimal digits, most significant first.
pub fn fmt_u64(n: u64) -> (r: Vec<u8>)
    ensures
        r@ == dec_digits(n as nat),
{
    if n == 0 {
        let mut r: Vec<u8> = Vec::new();
        r.push(48);
        proof {
            assert(r@ =~= dec_digits(0));
        }
        return r;
    }
    // Collect the digits least significant first, then reverse them.
    let mut digits: Vec<u8> = Vec::new();
    let mut m: u64 = n;
    proof {
        assert(dec_digits(n as nat) =~= dec_digits(n as nat) + digits@.reverse());
    }
    while m > 0
        invariant
            m > 0 ==> dec_digits(n as nat) == dec_digits(m as nat) + digits@.reverse(),
            m == 0 ==> dec_digits(n as nat) == digits@.reverse(),
        decreases m,
    {
        let d: u8 = (48 + m % 10) as u8;
        let ghost prev_digits = digits@;
        let ghost prev_m = m as nat;
        digits.push(d);
        m = m / 10;
        proof {
            assert(digits@.reverse() =~= seq![d] + prev_digits.reverse());
            if prev_m < 10 {
                assert(dec_digits(prev_m) == seq![d]);
                assert(dec_digits(n as nat) =~= digits@.reverse());
            } else {
                assert(dec_digits(prev_m) == dec_digits(prev_m / 10) + seq![(48 + prev_m % 10) as u8]);
                assert(dec_digits(prev_m) + prev_digits.reverse() =~= dec_digits(prev_m / 10)
                    + digits@.reverse());
            }
        }
    }
    let mut r: Vec<u8> = Vec::new();
    while digits.len() > 0
        invariant
            dec_digits(n as nat) == r@ + digits@.reverse(),
        decreases digits@.len(),
    {
        let ghost prev_digits = digits@;
        let d: u8 = digits.pop().unwrap();
        r.push(d);
        proof {
            assert(prev_digits.reverse() =~= seq![d] + digits@.reverse());
            assert(r@ + digits@.reverse() =~= dec_digits(n as nat));
        }
    }
    proof {
        assert(r@ =~= dec_digits(n as nat));
    }
    r
}

/// Renders `s` as its UTF-8 bytes, for use as a template argument.
pub fn fmt_str(s: &str) -> (r: Vec<u8>)
    ensures
        r@ == s.spec_bytes(),
{
    s.as_bytes_vec()
}

/// Interpolation of positional placeholders: each occurrence of the two
/// bytes `{}` in `template` is replaced by the next unused argument, in
/// order. A placeholder with no argument left is copied literally; leftover
/// arguments are ignored.
pub open spec fn render(template: Seq<u8>, args: Seq<Seq<u8>>) -> Seq<u8>
    decreases template.len(),
{
    if template.len() == 0 {
        Seq::empty()
    } else if template.len() >= 2 && template[0] == 123u8 && template[1] == 125u8 && args.len()
        > 0 {
        args[0] + render(template.skip(2), args.skip(1))
    } else {
        seq![template[0]] + render(template.skip(1), args)
    }
}

/// `render`, followed by a single line-feed byte.
pub open spec fn render_line(template: Seq<u8>, args: Seq<Seq<u8>>) -> Seq<u8> {
    render(template, args).push(10u8)
}

/// Splices the rendered arguments into the template, replacing each `{}`
/// placeholder in order.
pub fn render_template(template: &[u8], args: &Vec<Vec<u8>>) -> (r: Vec<u8>)
    ensures
        r@ == render(template@, args.deep_view()),
{
    let mut out: Vec<u8> = Vec::new();
    let mut i: usize = 0;
    let mut j: usize = 0;
    proof {
        assert(template@.skip(0) =~= template@);
        assert(args.deep_view().skip(0) =~= args.deep_view());
    }
    while i < template.len()
        invariant
            i <= template@.len(),
            j <= args.deep_view().len(),
            render(template@, args.deep_view()) == out@ + render(
                template@.skip(i as int),
                args.deep_view().skip(j as int),
            ),
        decreases template@.len() - i,
    {
        let ghost rest = template@.skip(i as int);
        let ghost arg_rest = args.deep_view().skip(j as int);
        let ghost prev_out = out@;
        if i + 1 < template.len() && template[i] == 123 && template[i + 1] == 125 && j
            < args.len() {
            proof {
                assert(rest.len() >= 2 && rest[0] == 123u8 && rest[1] == 125u8);
                assert(arg_rest[0] == args.deep_view()[j as int]);
                assert(rest.skip(2) =~= template@.skip(i as int + 2));
                assert(arg_rest.skip(1) =~= args.deep_view().skip(j as int + 1));
            }
            out.extend_from_slice(args[j].as_slice());
            proof {
                assert(args.deep_view()[j as int] == args@[j as int]@);
                assert(out@ =~= prev_out + args@[j as int]@);
                assert(prev_out + (arg_rest[0] + render(
                    template@.skip(i as int + 2),
                    args.deep_view().skip(j as int + 1),
                )) =~= out@ + render(
                    template@.skip(i as int + 2),
                    args.deep_view().skip(j as int + 1),
                ));
            }
            i = i + 2;
            j = j + 1;
        } else {
            proof {
                assert(!(rest.len() >= 2 && rest[0] == 123u8 && rest[1] == 125u8 && arg_rest.len()
                    > 0));
                assert(rest[0] == template@[i as int]);
                assert(rest.skip(1) =~= template@.skip(i as int + 1));
            }
            out.push(template[i]);
            proof {
                assert(out@ =~= prev_out + seq![template@[i as int]]);
                assert(prev_out + (seq![rest[0]] + render(
                    template@.skip(i as int + 1),
                    arg_rest,
                )) =~= out@ + render(template@.skip(i as int + 1), arg_rest));
            }
            i = i + 1;
        }
    }
    proof {
        assert(template@.skip(i as int) =~= Seq::<u8>::empty());
        assert(render(template@, args.deep_view()) =~= out@);
    }
    out
}

} // verus!
