//! Decoder for the high-score table format: fixed 8-byte records holding
//! a 3-letter name (one byte per letter, 0 is 'A'), one padding byte, and
//! a 32-bit little-endian score; the table ends at the first record whose
//! score is zero.

use vstd::prelude::*;

verus! {

/// One entry of the high-score table, in file order.
#[derive(Debug, PartialEq)]
pub struct HighScore {
    pub name: String,
    pub score: u32,
}

/// Why a high-score buffer was rejected.
#[derive(Copy, Clone, Debug, PartialEq, Eq, Structural)]
pub enum ParseFailure {
    /// A name byte of a record before the sentinel is 26 or more.
    InvalidName,
    /// A partial record trails the last full record.
    UnparsedBytes,
}

/// The letter a name byte decodes to: 0 is 'A', 1 is 'B', and so on.
pub open spec fn letter_char(b: int) -> char {
    if b == 0 {
        'A'
    } else if b == 1 {
        'B'
    } else if b == 2 {
        'C'
    } else if b == 3 {
        'D'
    } else if b == 4 {
        'E'
    } else if b == 5 {
        'F'
    } else if b == 6 {
        'G'
    } else if b == 7 {
        'H'
    } else if b == 8 {
        'I'
    } else if b == 9 {
        'J'
    } else if b == 10 {
        'K'
    } else if b == 11 {
        'L'
    } else if b == 12 {
        'M'
    } else if b == 13 {
        'N'
    } else if b == 14 {
        'O'
    } else if b == 15 {
        'P'
    } else if b == 16 {
        'Q'
    } else if b == 17 {
        'R'
    } else if b == 18 {
        'S'
    } else if b == 19 {
        'T'
    } else if b == 20 {
        'U'
    } else if b == 21 {
        'V'
    } else if b == 22 {
        'W'
    } else if b == 23 {
        'X'
    } else if b == 24 {
        'Y'
    } else {
        'Z'
    }
}

/// All three name bytes of record `r` are valid letters.
pub open spec fn record_name_ok(b: Seq<u8>, r: int) -> bool {
    b[8 * r] < 26 && b[8 * r + 1] < 26 && b[8 * r + 2] < 26
}

/// The decoded name of record `r`.
pub open spec fn record_name(b: Seq<u8>, r: int) -> Seq<char> {
    seq![
        letter_char(b[8 * r] as int),
        letter_char(b[8 * r + 1] as int),
        letter_char(b[8 * r + 2] as int),
    ]
}

/// The little-endian score of record `r`.
pub open spec fn record_score(b: Seq<u8>, r: int) -> int {
    b[8 * r + 4] + 256 * b[8 * r + 5] + 65536 * b[8 * r + 6] + 16777216 * b[8 * r + 7]
}

/// The outcome of parsing the table from record `r` on: the entries up to
/// the first zero-score sentinel, an invalid-name error on a bad letter
/// byte, and a trailing-bytes error when the buffer length is no multiple
/// of 8 (the table may only omit records, never leave a partial one).
pub open spec fn parse_from(b: Seq<u8>, r: int) -> Result<Seq<(Seq<char>, int)>, ParseFailure>
    decreases b.len() / 8 - r,
{
    if r >= b.len() / 8 {
        if b.len() % 8 == 0 {
            Ok(Seq::empty())
        } else {
            Err(ParseFailure::UnparsedBytes)
        }
    } else if !record_name_ok(b, r) {
        Err(ParseFailure::InvalidName)
    } else if record_score(b, r) == 0 {
        if b.len() % 8 == 0 {
            Ok(Seq::empty())
        } else {
            Err(ParseFailure::UnparsedBytes)
        }
    } else {
        match parse_from(b, r + 1) {
            Ok(rest) => Ok(seq![(record_name(b, r), record_score(b, r))] + rest),
            Err(e) => Err(e),
        }
    }
}

/// The error string reported for a parse failure.
pub open spec fn failure_message(e: ParseFailure) -> Seq<char> {
    match e {
        ParseFailure::InvalidName => "name contains invalid characters"@,
        ParseFailure::UnparsedBytes => "unparsed bytes at end"@,
    }
}

/// The entries a vector of high scores stands for.
pub open spec fn entries_of(scores: Seq<HighScore>) -> Seq<(Seq<char>, int)> {
    Seq::new(scores.len(), |k: int| (scores[k].name@, scores[k].score as int))
}

fn letter_str(b: u8) -> (s: &'static str)
    requires
        b < 26,
    ensures
        s@ == seq![letter_char(b as int)],
{
    match b {
        0 => {
            proof {
                reveal_strlit("A");
                assert("A"@ =~= seq![letter_char(0)]);
            }
            "A"
        },
        1 => {
            proof {
                reveal_strlit("B");
                assert("B"@ =~= seq![letter_char(1)]);
            }
            "B"
        },
        2 => {
            proof {
                reveal_strlit("C");
                assert("C"@ =~= seq![letter_char(2)]);
            }
            "C"
        },
        3 => {
            proof {
                reveal_strlit("D");
                assert("D"@ =~= seq![letter_char(3)]);
            }
            "D"
        },
        4 => {
            proof {
                reveal_strlit("E");
                assert("E"@ =~= seq![letter_char(4)]);
            }
            "E"
        },
        5 => {
            proof {
                reveal_strlit("F");
                assert("F"@ =~= seq![letter_char(5)]);
            }
            "F"
        },
        6 => {
            proof {
                reveal_strlit("G");
                assert("G"@ =~= seq![letter_char(6)]);
            }
            "G"
        },
        7 => {
            proof {
                reveal_strlit("H");
                assert("H"@ =~= seq![letter_char(7)]);
            }
            "H"
        },
        8 => {
            proof {
                reveal_strlit("I");
                assert("I"@ =~= seq![letter_char(8)]);
            }
            "I"
        },
        9 => {
            proof {
                reveal_strlit("J");
                assert("J"@ =~= seq![letter_char(9)]);
            }
            "J"
        },
        10 => {
            proof {
                reveal_strlit("K");
                assert("K"@ =~= seq![letter_char(10)]);
            }
            "K"
        },
        11 => {
            proof {
                reveal_strlit("L");
                assert("L"@ =~= seq![letter_char(11)]);
            }
            "L"
        },
        12 => {
            proof {
                reveal_strlit("M");
                assert("M"@ =~= seq![letter_char(12)]);
            }
            "M"
        },
        13 => {
            proof {
                reveal_strlit("N");
                assert("N"@ =~= seq![letter_char(13)]);
            }
            "N"
        },
        14 => {
            proof {
                reveal_strlit("O");
                assert("O"@ =~= seq![letter_char(14)]);
            }
            "O"
        },
        15 => {
            proof {
                reveal_strlit("P");
                assert("P"@ =~= seq![letter_char(15)]);
            }
            "P"
        },
        16 => {
            proof {
                reveal_strlit("Q");
                assert("Q"@ =~= seq![letter_char(16)]);
            }
            "Q"
        },
        17 => {
            proof {
                reveal_strlit("R");
                assert("R"@ =~= seq![letter_char(17)]);
            }
            "R"
        },
        18 => {
            proof {
                reveal_strlit("S");
                assert("S"@ =~= seq![letter_char(18)]);
            }
            "S"
        },
        19 => {
            proof {
                reveal_strlit("T");
                assert("T"@ =~= seq![letter_char(19)]);
            }
            "T"
        },
        20 => {
            proof {
                reveal_strlit("U");
                assert("U"@ =~= seq![letter_char(20)]);
            }
            "U"
        },
        21 => {
            proof {
                reveal_strlit("V");
                assert("V"@ =~= seq![letter_char(21)]);
            }
            "V"
        },
        22 => {
            proof {
                reveal_strlit("W");
                assert("W"@ =~= seq![letter_char(22)]);
            }
            "W"
        },
        23 => {
            proof {
                reveal_strlit("X");
                assert("X"@ =~= seq![letter_char(23)]);
            }
            "X"
        },
        24 => {
            proof {
                reveal_strlit("Y");
                assert("Y"@ =~= seq![letter_char(24)]);
            }
            "Y"
        },
        _ => {
            proof {
                reveal_strlit("Z");
                assert("Z"@ =~= seq![letter_char(25)]);
            }
            "Z"
        },
    }
}

/// Parses the high-score table out of a raw buffer.
pub fn parse(buffer: &[u8]) -> (r: Result<Vec<HighScore>, String>)
    ensures
        match r {
            Ok(scores) => parse_from(buffer@, 0) matches Ok(model) && entries_of(scores@) == model,
            Err(m) => {
                &&& parse_from(buffer@, 0) matches Err(e)
                &&& m@ == failure_message(e)
            },
        },
{
    let len = buffer.len();
    let records = len / 8;
    let mut high_scores: Vec<HighScore> = Vec::new();
    let mut r: usize = 0;
    let mut sentinel = false;
    while r < records && !sentinel
        invariant
            len == buffer@.len(),
            records == len / 8,
            r <= records,
            high_scores@.len() == r,
            sentinel ==> r < records && record_name_ok(buffer@, r as int) && record_score(
                buffer@,
                r as int,
            ) == 0,
            parse_from(buffer@, r as int) matches Ok(rest) ==> parse_from(buffer@, 0) matches Ok(
                all,
            ) && all == entries_of(high_scores@) + rest,
            parse_from(buffer@, r as int) matches Err(e) ==> parse_from(buffer@, 0) == Err::<
                Seq<(Seq<char>, int)>,
                ParseFailure,
            >(e),
        decreases records - r + (if sentinel {
            0int
        } else {
            1int
        }),
    {
        let base = 8 * r;
        let b0 = buffer[base];
        let b1 = buffer[base + 1];
        let b2 = buffer[base + 2];
        if !(b0 < 26 && b1 < 26 && b2 < 26) {
            return Err(String::from_str("name contains invalid characters"));
        }
        let score: u32 = buffer[base + 4] as u32 + 256 * (buffer[base + 5] as u32) + 65536 * (
        buffer[base + 6] as u32) + 16777216 * (buffer[base + 7] as u32);
        if score == 0 {
            sentinel = true;
        } else {
            let mut name = String::new();
            name.append(letter_str(b0));
            name.append(letter_str(b1));
            name.append(letter_str(b2));
            let ghost previous = high_scores@;
            high_scores.push(HighScore { name, score });
            proof {
                let b = buffer@;
                let rest = parse_from(b, r as int + 1);
                assert(high_scores@[r as int].name@ =~= record_name(b, r as int));
                assert(entries_of(high_scores@) =~= entries_of(previous) + seq![
                    (record_name(b, r as int), record_score(b, r as int)),
                ]);
                if rest is Ok {
                    assert(entries_of(previous) + (seq![
                        (record_name(b, r as int), record_score(b, r as int)),
                    ] + rest.unwrap()) =~= entries_of(high_scores@) + rest.unwrap());
                }
            }
            r = r + 1;
        }
    }
    if len % 8 != 0 {
        return Err(String::from_str("unparsed bytes at end"));
    }
    proof {
        assert(entries_of(high_scores@) + Seq::<(Seq<char>, int)>::empty() =~= entries_of(
            high_scores@,
        ));
    }
    Ok(high_scores)
}

} // verus!
