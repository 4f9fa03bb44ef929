use vstd::prelude::*;
use vstd::string::StringExecFns;

use crate::config::{Config, Language};
use crate::dates::DateTime;

verus! {

pub open spec fn digit_char(d: int) -> char {
    if d == 0 {
        '0'
    } else if d == 1 {
        '1'
    } else if d == 2 {
        '2'
    } else if d == 3 {
        '3'
    } else if d == 4 {
        '4'
    } else if d == 5 {
        '5'
    } else if d == 6 {
        '6'
    } else if d == 7 {
        '7'
    } else if d == 8 {
        '8'
    } else {
        '9'
    }
}

/// The decimal digits of `n`, most significant first.
pub open spec fn dec_spec(n: nat) -> Seq<char>
    decreases n,
{
    if n < 10 {
        seq![digit_char(n as int)]
    } else {
        dec_spec(n / 10).push(digit_char((n % 10) as int))
    }
}

pub open spec fn zeros(n: nat) -> Seq<char>
    decreases n,
{
    if n == 0 {
        Seq::empty()
    } else {
        zeros((n - 1) as nat).push('0')
    }
}

/// `n` in decimal, zero-padded on the left to at least `w` characters.
pub open spec fn padded(n: nat, w: nat) -> Seq<char> {
    if dec_spec(n).len() >= w {
        dec_spec(n)
    } else {
        zeros((w - dec_spec(n).len()) as nat) + dec_spec(n)
    }
}

/// The year written as four characters minimum, zeros on the left; a
/// leading minus of a negative year counts toward the width.
pub open spec fn year_str_spec(y: int) -> Seq<char> {
    if y >= 0 {
        padded(y as nat, 4)
    } else {
        seq!['-'] + padded((-y) as nat, 3)
    }
}

/// The fixed month-name table, with the separating space it is appended
/// with; no language means no name.
pub open spec fn month_name_spec(lang: Language, m: int) -> Seq<char> {
    match lang {
        Language::NoLanguage => Seq::empty(),
        Language::English => if m == 1 {
            " January"@
        } else if m == 2 {
            " February"@
        } else if m == 3 {
            " March"@
        } else if m == 4 {
            " April"@
        } else if m == 5 {
            " May"@
        } else if m == 6 {
            " June"@
        } else if m == 7 {
            " July"@
        } else if m == 8 {
            " August"@
        } else if m == 9 {
            " September"@
        } else if m == 10 {
            " October"@
        } else if m == 11 {
            " November"@
        } else {
            " December"@
        },
        Language::Swedish => if m == 1 {
            " Januari"@
        } else if m == 2 {
            " Februari"@
        } else if m == 3 {
            " Mars"@
        } else if m == 4 {
            " April"@
        } else if m == 5 {
            " Maj"@
        } else if m == 6 {
            " Juni"@
        } else if m == 7 {
            " Juli"@
        } else if m == 8 {
            " Augusti"@
        } else if m == 9 {
            " September"@
        } else if m == 10 {
            " October"@
        } else if m == 11 {
            " November"@
        } else {
            " December"@
        },
    }
}

/// The relative output directory of a resolved date under a naming policy:
/// `YYYY MM` flattened, `YYYY/YYYY MM` with the year repeated, `YYYY/MM`
/// otherwise, the month's name appended when a language is chosen.
pub open spec fn output_dir_spec(flat: bool, year_dir: bool, lang: Language, y: int, m: int) -> Seq<
    char,
> {
    let ys = year_str_spec(y);
    let ms = padded(m as nat, 2);
    let nm = month_name_spec(lang, m);
    if flat {
        ys + seq![' '] + ms + nm
    } else if year_dir {
        ys + seq!['/'] + ys + seq![' '] + ms + nm
    } else {
        ys + seq!['/'] + ms + nm
    }
}

fn digit_str(d: u32) -> (r: &'static str)
    requires
        d < 10,
    ensures
        r@ == seq![digit_char(d as int)],
{
    proof {
        reveal_strlit("0");
        reveal_strlit("1");
        reveal_strlit("2");
        reveal_strlit("3");
        reveal_strlit("4");
        reveal_strlit("5");
        reveal_strlit("6");
        reveal_strlit("7");
        reveal_strlit("8");
        reveal_strlit("9");
    }
    let r = if d == 0 {
        "0"
    } else if d == 1 {
        "1"
    } else if d == 2 {
        "2"
    } else if d == 3 {
        "3"
    } else if d == 4 {
        "4"
    } else if d == 5 {
        "5"
    } else if d == 6 {
        "6"
    } else if d == 7 {
        "7"
    } else if d == 8 {
        "8"
    } else {
        "9"
    };
    proof {
        assert(r@ =~= seq![digit_char(d as int)]);
    }
    r
}

fn push_digits(out: &mut String, n: u32)
    ensures
        final(out)@ == old(out)@ + dec_spec(n as nat),
    decreases n,
{
    if n < 10 {
        out.append(digit_str(n));
        proof {
            assert(out@ =~= old(out)@ + dec_spec(n as nat));
        }
    } else {
        push_digits(out, n / 10);
        out.append(digit_str(n % 10));
        proof {
            assert(out@ =~= old(out)@ + dec_spec(n as nat));
        }
    }
}

proof fn lemma_dec_len1(n: nat)
    ensures
        dec_spec(n).len() >= 1,
    decreases n,
{
    if n >= 10 {
        lemma_dec_len1(n / 10);
    }
}

proof fn lemma_dec_len_exact(n: nat)
    ensures
        n < 10 ==> dec_spec(n).len() == 1,
        10 <= n < 100 ==> dec_spec(n).len() == 2,
        100 <= n < 1000 ==> dec_spec(n).len() == 3,
        n >= 1000 ==> dec_spec(n).len() >= 4,
{
    lemma_dec_len1(n);
    if n >= 10 {
        lemma_dec_len1(n / 10);
        if n / 10 >= 10 {
            lemma_dec_len1(n / 10 / 10);
            if n / 10 / 10 >= 10 {
                lemma_dec_len1(n / 10 / 10 / 10);
            }
        }
    }
}

fn push_padded(out: &mut String, n: u32, w: u32)
    requires
        2 <= w <= 4,
    ensures
        final(out)@ == old(out)@ + padded(n as nat, w as nat),
{
    proof {
        reveal_strlit("0");
        reveal_strlit("00");
        reveal_strlit("000");
        reveal_with_fuel(zeros, 4);
        lemma_dec_len_exact(n as nat);
        assert(zeros(1) =~= "0"@);
        assert(zeros(2) =~= "00"@);
        assert(zeros(3) =~= "000"@);
    }
    if n < 10 {
        if w == 4 {
            out.append("000");
        } else if w == 3 {
            out.append("00");
        } else {
            out.append("0");
        }
    } else if n < 100 {
        if w == 4 {
            out.append("00");
        } else if w == 3 {
            out.append("0");
        }
    } else if n < 1000 {
        if w == 4 {
            out.append("0");
        }
    }
    push_digits(out, n);
    proof {
        assert(out@ =~= old(out)@ + padded(n as nat, w as nat));
    }
}

fn push_year(out: &mut String, y: i32)
    ensures
        final(out)@ == old(out)@ + year_str_spec(y as int),
{
    if y >= 0 {
        push_padded(out, y as u32, 4);
    } else {
        proof {
            reveal_strlit("-");
        }
        out.append("-");
        let mag: u32 = (-(y as i64)) as u32;
        push_padded(out, mag, 3);
        proof {
            assert(out@ =~= old(out)@ + year_str_spec(y as int));
        }
    }
}

/// The month's name in the chosen language, ready to append.
pub fn month_name(lang: Language, m: u8) -> (r: &'static str)
    requires
        1 <= m <= 12,
    ensures
        r@ == month_name_spec(lang, m as int),
{
    match lang {
        Language::NoLanguage => {
            proof {
                reveal_strlit("");
                assert(""@ =~= Seq::<char>::empty());
            }
            ""
        },
        Language::English => {
            if m == 1 {
                " January"
            } else if m == 2 {
                " February"
            } else if m == 3 {
                " March"
            } else if m == 4 {
                " April"
            } else if m == 5 {
                " May"
            } else if m == 6 {
                " June"
            } else if m == 7 {
                " July"
            } else if m == 8 {
                " August"
            } else if m == 9 {
                " September"
            } else if m == 10 {
                " October"
            } else if m == 11 {
                " November"
            } else {
                " December"
            }
        },
        Language::Swedish => {
            if m == 1 {
                " Januari"
            } else if m == 2 {
                " Februari"
            } else if m == 3 {
                " Mars"
            } else if m == 4 {
                " April"
            } else if m == 5 {
                " Maj"
            } else if m == 6 {
                " Juni"
            } else if m == 7 {
                " Juli"
            } else if m == 8 {
                " Augusti"
            } else if m == 9 {
                " September"
            } else if m == 10 {
                " October"
            } else if m == 11 {
                " November"
            } else {
                " December"
            }
        },
    }
}

/// Map a resolved date onto its relative output directory under the naming
/// policy of `config`.
pub fn get_output_dir(config: &Config, date: &DateTime) -> (r: String)
    requires
        1 <= date.month <= 12,
    ensures
        r@ == output_dir_spec(
            config.flat,
            config.year,
            config.month,
            date.year as int,
            date.month as int,
        ),
{
    proof {
        reveal_strlit(" ");
        reveal_strlit("/");
    }
    let mut out = String::new();
    push_year(&mut out, date.year);
    if config.flat {
        out.append(" ");
    } else if config.year {
        out.append("/");
        push_year(&mut out, date.year);
        out.append(" ");
    } else {
        out.append("/");
    }
    push_padded(&mut out, date.month as u32, 2);
    out.append(month_name(config.month, date.month));
    proof {
        assert(out@ =~= output_dir_spec(
            config.flat,
            config.year,
            config.month,
            date.year as int,
            date.month as int,
        ));
    }
    out
}

} // verus!
