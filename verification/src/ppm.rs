use vstd::prelude::*;
use vstd::string::{StrSliceExecFns, StringExecFns};

verus! {

/// The character for one decimal digit.
pub open spec fn digit_char(d: nat) -> char
    recommends
        d < 10,
{
    if d == 0 {
        '0'
    } else if d == 1 {
        '1'
    } else if d == 2 {
        '2'
    } else if d == 3 {
        '3'
    } else if d == 4 {
        '4'
    } else if d == 5 {
        '5'
    } else if d == 6 {
        '6'
    } else if d == 7 {
        '7'
    } else if d == 8 {
        '8'
    } else {
        '9'
    }
}

/// The decimal digits of `n`, most significant first, no leading zeros.
pub open spec fn dec_rep(n: nat) -> Seq<char>
    decreases n,
{
    if n < 10 {
        seq![digit_char(n)]
    } else {
        dec_rep(n / 10) + seq![digit_char(n % 10)]
    }
}

/// One decimal digit as text.
fn digit_str(d: u64) -> (r: &'static str)
    requires
        d < 10,
    ensures
        r@ =~= seq![digit_char(d as nat)],
{
    proof {
        reveal_strlit("0");
        reveal_strlit("1");
        reveal_strlit("2");
        reveal_strlit("3");
        reveal_strlit("4");
        reveal_strlit("5");
        reveal_strlit("6");
        reveal_strlit("7");
        reveal_strlit("8");
        reveal_strlit("9");
    }
    if d == 0 {
        "0"
    } else if d == 1 {
        "1"
    } else if d == 2 {
        "2"
    } else if d == 3 {
        "3"
    } else if d == 4 {
        "4"
    } else if d == 5 {
        "5"
    } else if d == 6 {
        "6"
    } else if d == 7 {
        "7"
    } else if d == 8 {
        "8"
    } else {
        "9"
    }
}

/// `n` written in decimal.
pub fn dec_string(n: u64) -> (r: String)
    ensures
        r@ == dec_rep(n as nat),
    decreases n,
{
    if n < 10 {
        digit_str(n).to_owned()
    } else {
        let mut s = dec_string(n / 10);
        s.append(digit_str(n % 10));
        s
    }
}

/// The text of one pixel: the three channel values separated by spaces,
/// ending the line.
pub open spec fn pixel_line_rep(r: nat, g: nat, b: nat) -> Seq<char> {
    dec_rep(r) + seq![' '] + dec_rep(g) + seq![' '] + dec_rep(b) + seq!['\n']
}

/// Encode one pixel's quantized channels as its output line.  The rendering
/// layer averages, gamma-corrects and quantizes the sampled color into the
/// three byte values beforehand.
pub fn pixel_line(r: u8, g: u8, b: u8) -> (s: String)
    ensures
        s@ == pixel_line_rep(r as nat, g as nat, b as nat),
{
    proof {
        reveal_strlit(" ");
        reveal_strlit("\n");
    }
    let mut s = dec_string(r as u64);
    s.append(" ");
    let gs = dec_string(g as u64);
    s.append(gs.as_str());
    s.append(" ");
    let bs = dec_string(b as u64);
    s.append(bs.as_str());
    s.append("\n");
    proof {
        assert(" "@ =~= seq![' ']);
        assert("\n"@ =~= seq!['\n']);
    }
    s
}

/// The header of a plain-text image of the given dimensions: the magic
/// line, the dimensions line, and the maximum channel value.
pub open spec fn header_rep(width: nat, height: nat) -> Seq<char> {
    seq!['P', '3', '\n'] + dec_rep(width) + seq![' '] + dec_rep(height) + seq![
        '\n',
        '2',
        '5',
        '5',
        '\n',
    ]
}

/// Encode the image header for the given dimensions.
pub fn ppm_header(width: u64, height: u64) -> (s: String)
    ensures
        s@ == header_rep(width as nat, height as nat),
{
    proof {
        reveal_strlit("P3\n");
        reveal_strlit(" ");
        reveal_strlit("\n255\n");
    }
    let mut s = String::from_str("P3\n");
    let ws = dec_string(width);
    s.append(ws.as_str());
    s.append(" ");
    let hs = dec_string(height);
    s.append(hs.as_str());
    s.append("\n255\n");
    proof {
        assert("P3\n"@ =~= seq!['P', '3', '\n']);
        assert(" "@ =~= seq![' ']);
        assert("\n255\n"@ =~= seq!['\n', '2', '5', '5', '\n']);
    }
    s
}

/// Put the header in front of the rendered rows: the full image, one
/// element per row of text, rows kept in order behind the header.
pub fn image_lines(width: u64, height: u64, rows: Vec<String>) -> (r: Vec<String>)
    requires
        rows@.len() == height,
    ensures
        r@.len() == rows@.len() + 1,
        r@[0]@ == header_rep(width as nat, height as nat),
        forall|j: int| 1 <= j < r@.len() ==> r@[j] == rows@[j - 1],
{
    let mut out: Vec<String> = Vec::new();
    out.push(ppm_header(width, height));
    let mut rows = rows;
    out.append(&mut rows);
    out
}

/// The whole plain-text image from the collected per-row results: reorder
/// the rows by index and put the header in front.  Returns `None` exactly
/// when the pairs do not cover the image's rows.
pub fn assemble_image(width: u64, height: u64, pairs: &Vec<(usize, String)>) -> (r: Option<
    Vec<String>,
>)
    requires
        height <= usize::MAX,
    ensures
        r is Some <==> crate::scheduler::covers(pairs@, height as int),
        r matches Some(lines) ==> {
            &&& lines@.len() == height + 1
            &&& lines@[0]@ == header_rep(width as nat, height as nat)
            &&& forall|j: int|
                1 <= j < lines@.len() ==> lines@[j] == crate::scheduler::last_payload(
                    pairs@,
                    j - 1,
                ).unwrap()
        },
{
    match crate::scheduler::reassemble(pairs, height as usize) {
        None => None,
        Some(rows) => Some(image_lines(width, height, rows)),
    }
}

} // verus!
