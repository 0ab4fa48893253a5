//! Facts about the table of symbol names: each name is made of upper-case
//! letters and digits, names are distinct, and no name is another one
//! followed by the beginning of `USDT`.

use crate::exchange::Symbol;
use vstd::prelude::*;

verus! {

/// Whether a character may appear in a symbol name: `A`..`Z` or `0`..`9`.
pub open spec fn is_name_char(c: char) -> bool {
    ('A' <= c && c <= 'Z') || ('0' <= c && c <= '9')
}

/// Whether a text is a non-empty run of name characters.
pub open spec fn is_name_text(t: Seq<char>) -> bool {
    t.len() > 0 && forall|k: int| 0 <= k < t.len() ==> is_name_char(#[trigger] t[k])
}

/// The symbol whose name is `t`, read character by character.
pub closed spec fn name_lookup(t: Seq<char>) -> Option<Symbol> {
    if t.len() == 0 {
        None
    } else if t[0] == '1' {
        if t.len() == 1 {
            None
        } else if t[1] == '0' && t[2] == '0' && t[3] == '0' && t[4] == 'C' && t[5] == 'H' && t[6] == 'E' && t[7] == 'E' && t[8] == 'M' && t[9] == 'S' {
            if t.len() == 10 { Some(Symbol::Cheems1000) } else { None }
        } else if t[1] == 'I' && t[2] == 'N' && t[3] == 'C' && t[4] == 'H' {
            if t.len() == 5 { Some(Symbol::Inch1) } else { None }
        } else {
            None
        }
    } else if t[0] == 'A' {
        if t.len() == 1 {
            None
        } else if t[1] == 'A' && t[2] == 'V' && t[3] == 'E' {
            if t.len() == 4 { Some(Symbol::Aave) } else { None }
        } else if t[1] == 'D' && t[2] == 'A' {
            if t.len() == 3 { Some(Symbol::Ada) } else { None }
        } else if t[1] == 'L' && t[2] == 'G' && t[3] == 'O' {
            if t.len() == 4 { Some(Symbol::Algo) } else { None }
        } else if t[1] == 'P' {
            if t.len() == 2 {
                None
            } else if t[2] == 'E' {
                if t.len() == 3 { Some(Symbol::Ape) } else { None }
            } else if t[2] == 'T' {
                if t.len() == 3 { Some(Symbol::Apt) } else { None }
            } else {
                None
            }
        } else if t[1] == 'R' && t[2] == 'B' {
            if t.len() == 3 { Some(Symbol::Arb) } else { None }
        } else if t[1] == 'T' && t[2] == 'O' && t[3] == 'M' {
            if t.len() == 4 { Some(Symbol::Atom) } else { None }
        } else if t[1] == 'V' {
            if t.len() == 2 {
                None
            } else if t[2] == 'A' && t[3] == 'X' {
                if t.len() == 4 { Some(Symbol::Avax) } else { None }
            } else if t[2] == 'N' && t[3] == 'T' {
                if t.len() == 4 { Some(Symbol::Avnt) } else { None }
            } else {
                None
            }
        } else if t[1] == 'X' && t[2] == 'L' {
            if t.len() == 3 { Some(Symbol::Axl) } else { None }
        } else {
            None
        }
    } else if t[0] == 'B' {
        if t.len() == 1 {
            None
        } else if t[1] == 'A' && t[2] == 'R' && t[3] == 'D' {
            if t.len() == 4 { Some(Symbol::Bard) } else { None }
        } else if t[1] == 'C' && t[2] == 'H' {
            if t.len() == 3 { Some(Symbol::Bch) } else { None }
        } else if t[1] == 'E' {
            if t.len() == 2 {
                None
            } else if t[2] == 'A' && t[3] == 'M' && t[4] == 'X' {
                if t.len() == 5 { Some(Symbol::Beamx) } else { None }
            } else if t[2] == 'R' && t[3] == 'A' {
                if t.len() == 4 { Some(Symbol::Bera) } else { None }
            } else {
                None
            }
        } else if t[1] == 'F' && t[2] == 'U' && t[3] == 'S' && t[4] == 'D' {
            if t.len() == 5 { Some(Symbol::Bfusd) } else { None }
        } else if t[1] == 'I' && t[2] == 'O' {
            if t.len() == 3 { Some(Symbol::Bio) } else { None }
        } else if t[1] == 'L' && t[2] == 'U' && t[3] == 'R' {
            if t.len() == 4 { Some(Symbol::Blur) } else { None }
        } else if t[1] == 'N' {
            if t.len() == 2 {
                None
            } else if t[2] == 'B' {
                if t.len() == 3 { Some(Symbol::Bnb) } else { None }
            } else if t[2] == 'S' && t[3] == 'O' && t[4] == 'L' {
                if t.len() == 5 { Some(Symbol::Bnsol) } else { None }
            } else {
                None
            }
        } else if t[1] == 'O' && t[2] == 'N' && t[3] == 'K' {
            if t.len() == 4 { Some(Symbol::Bonk) } else { None }
        } else if t[1] == 'T' {
            if t.len() == 2 {
                None
            } else if t[2] == 'C' {
                if t.len() == 3 { Some(Symbol::Btc) } else { None }
            } else if t[2] == 'T' && t[3] == 'C' {
                if t.len() == 4 { Some(Symbol::Bttc) } else { None }
            } else {
                None
            }
        } else {
            None
        }
    } else if t[0] == 'C' {
        if t.len() == 1 {
            None
        } else if t[1] == 'A' && t[2] == 'K' && t[3] == 'E' {
            if t.len() == 4 { Some(Symbol::Cake) } else { None }
        } else if t[1] == 'F' && t[2] == 'X' {
            if t.len() == 3 { Some(Symbol::Cfx) } else { None }
        } else if t[1] == 'H' && t[2] == 'Z' {
            if t.len() == 3 { Some(Symbol::Chz) } else { None }
        } else if t[1] == 'O' && t[2] == 'M' && t[3] == 'P' {
            if t.len() == 4 { Some(Symbol::Comp) } else { None }
        } else if t[1] == 'R' && t[2] == 'V' {
            if t.len() == 3 { Some(Symbol::Crv) } else { None }
        } else if t[1] == 'V' && t[2] == 'X' {
            if t.len() == 3 { Some(Symbol::Cvx) } else { None }
        } else {
            None
        }
    } else if t[0] == 'D' {
        if t.len() == 1 {
            None
        } else if t[1] == 'O' {
            if t.len() == 2 {
                None
            } else if t[2] == 'G' && t[3] == 'E' {
                if t.len() == 4 { Some(Symbol::Doge) } else { None }
            } else if t[2] == 'T' {
                if t.len() == 3 { Some(Symbol::Dot) } else { None }
            } else {
                None
            }
        } else if t[1] == 'Y' && t[2] == 'D' && t[3] == 'X' {
            if t.len() == 4 { Some(Symbol::Dydx) } else { None }
        } else {
            None
        }
    } else if t[0] == 'E' {
        if t.len() == 1 {
            None
        } else if t[1] == 'G' && t[2] == 'L' && t[3] == 'D' {
            if t.len() == 4 { Some(Symbol::Egld) } else { None }
        } else if t[1] == 'I' && t[2] == 'G' && t[3] == 'E' && t[4] == 'N' {
            if t.len() == 5 { Some(Symbol::Eigen) } else { None }
        } else if t[1] == 'N' {
            if t.len() == 2 {
                None
            } else if t[2] == 'A' {
                if t.len() == 3 { Some(Symbol::Ena) } else { None }
            } else if t[2] == 'S' {
                if t.len() == 3 { Some(Symbol::Ens) } else { None }
            } else {
                None
            }
        } else if t[1] == 'T' {
            if t.len() == 2 {
                None
            } else if t[2] == 'C' {
                if t.len() == 3 { Some(Symbol::Etc) } else { None }
            } else if t[2] == 'H' {
                if t.len() == 3 { Some(Symbol::Eth) } else { None }
            } else {
                None
            }
        } else {
            None
        }
    } else if t[0] == 'F' {
        if t.len() == 1 {
            None
        } else if t[1] == 'D' && t[2] == 'U' && t[3] == 'S' && t[4] == 'D' {
            if t.len() == 5 { Some(Symbol::Fdusd) } else { None }
        } else if t[1] == 'E' && t[2] == 'T' {
            if t.len() == 3 { Some(Symbol::Fet) } else { None }
        } else if t[1] == 'I' && t[2] == 'L' {
            if t.len() == 3 { Some(Symbol::Fil) } else { None }
        } else if t[1] == 'L' && t[2] == 'O' {
            if t.len() == 3 {
                None
            } else if t[3] == 'K' && t[4] == 'I' {
                if t.len() == 5 { Some(Symbol::Floki) } else { None }
            } else if t[3] == 'W' {
                if t.len() == 4 { Some(Symbol::Flow) } else { None }
            } else {
                None
            }
        } else if t[1] == 'O' && t[2] == 'R' && t[3] == 'M' {
            if t.len() == 4 { Some(Symbol::Form) } else { None }
        } else if t[1] == 'T' && t[2] == 'T' {
            if t.len() == 3 { Some(Symbol::Ftt) } else { None }
        } else {
            None
        }
    } else if t[0] == 'G' {
        if t.len() == 1 {
            None
        } else if t[1] == 'A' && t[2] == 'S' {
            if t.len() == 3 { Some(Symbol::Gas) } else { None }
        } else if t[1] == 'N' && t[2] == 'O' {
            if t.len() == 3 { Some(Symbol::Gno) } else { None }
        } else if t[1] == 'R' && t[2] == 'T' {
            if t.len() == 3 { Some(Symbol::Grt) } else { None }
        } else {
            None
        }
    } else if t[0] == 'H' {
        if t.len() == 1 {
            None
        } else if t[1] == 'B' && t[2] == 'A' && t[3] == 'R' {
            if t.len() == 4 { Some(Symbol::Hbar) } else { None }
        } else if t[1] == 'O' && t[2] == 'L' && t[3] == 'O' {
            if t.len() == 4 { Some(Symbol::Holo) } else { None }
        } else {
            None
        }
    } else if t[0] == 'I' {
        if t.len() == 1 {
            None
        } else if t[1] == 'C' && t[2] == 'P' {
            if t.len() == 3 { Some(Symbol::Icp) } else { None }
        } else if t[1] == 'M' && t[2] == 'X' {
            if t.len() == 3 { Some(Symbol::Imx) } else { None }
        } else if t[1] == 'N' && t[2] == 'J' {
            if t.len() == 3 { Some(Symbol::Inj) } else { None }
        } else {
            None
        }
    } else if t[0] == 'J' && t[1] == 'S' && t[2] == 'T' {
        if t.len() == 3 { Some(Symbol::Jst) } else { None }
    } else if t[0] == 'K' {
        if t.len() == 1 {
            None
        } else if t[1] == 'A' {
            if t.len() == 2 {
                None
            } else if t[2] == 'I' {
                if t.len() == 3 {
                    None
                } else if t[3] == 'A' {
                    if t.len() == 4 { Some(Symbol::Kaia) } else { None }
                } else if t[3] == 'T' && t[4] == 'O' {
                    if t.len() == 5 { Some(Symbol::Kaito) } else { None }
                } else {
                    None
                }
            } else if t[2] == 'V' && t[3] == 'A' {
                if t.len() == 4 { Some(Symbol::Kava) } else { None }
            } else {
                None
            }
        } else if t[1] == 'M' && t[2] == 'N' && t[3] == 'O' {
            if t.len() == 4 { Some(Symbol::Kmno) } else { None }
        } else {
            None
        }
    } else if t[0] == 'L' {
        if t.len() == 1 {
            None
        } else if t[1] == 'D' && t[2] == 'O' {
            if t.len() == 3 { Some(Symbol::Ldo) } else { None }
        } else if t[1] == 'I' && t[2] == 'N' {
            if t.len() == 3 {
                None
            } else if t[3] == 'E' && t[4] == 'A' {
                if t.len() == 5 { Some(Symbol::Linea) } else { None }
            } else if t[3] == 'K' {
                if t.len() == 4 { Some(Symbol::Link) } else { None }
            } else {
                None
            }
        } else if t[1] == 'P' && t[2] == 'T' {
            if t.len() == 3 { Some(Symbol::Lpt) } else { None }
        } else if t[1] == 'T' && t[2] == 'C' {
            if t.len() == 3 { Some(Symbol::Ltc) } else { None }
        } else if t[1] == 'U' && t[2] == 'N' && t[3] == 'C' {
            if t.len() == 4 { Some(Symbol::Lunc) } else { None }
        } else {
            None
        }
    } else if t[0] == 'M' {
        if t.len() == 1 {
            None
        } else if t[1] == 'A' && t[2] == 'N' && t[3] == 'A' {
            if t.len() == 4 { Some(Symbol::Mana) } else { None }
        } else if t[1] == 'I' && t[2] == 'N' && t[3] == 'A' {
            if t.len() == 4 { Some(Symbol::Mina) } else { None }
        } else if t[1] == 'O' && t[2] == 'V' && t[3] == 'E' {
            if t.len() == 4 { Some(Symbol::Move) } else { None }
        } else {
            None
        }
    } else if t[0] == 'N' && t[1] == 'E' {
        if t.len() == 2 {
            None
        } else if t[2] == 'A' && t[3] == 'R' {
            if t.len() == 4 { Some(Symbol::Near) } else { None }
        } else if t[2] == 'X' && t[3] == 'O' {
            if t.len() == 4 { Some(Symbol::Nexo) } else { None }
        } else {
            None
        }
    } else if t[0] == 'O' {
        if t.len() == 1 {
            None
        } else if t[1] == 'N' && t[2] == 'D' && t[3] == 'O' {
            if t.len() == 4 { Some(Symbol::Ondo) } else { None }
        } else if t[1] == 'P' && t[2] == 'E' && t[3] == 'N' {
            if t.len() == 4 { Some(Symbol::Open) } else { None }
        } else if t[1] == 'R' && t[2] == 'D' && t[3] == 'I' {
            if t.len() == 4 { Some(Symbol::Ordi) } else { None }
        } else {
            None
        }
    } else if t[0] == 'P' {
        if t.len() == 1 {
            None
        } else if t[1] == 'E' {
            if t.len() == 2 {
                None
            } else if t[2] == 'N' {
                if t.len() == 3 {
                    None
                } else if t[3] == 'D' && t[4] == 'L' && t[5] == 'E' {
                    if t.len() == 6 { Some(Symbol::Pendle) } else { None }
                } else if t[3] == 'G' && t[4] == 'U' {
                    if t.len() == 5 { Some(Symbol::Pengu) } else { None }
                } else {
                    None
                }
            } else if t[2] == 'P' && t[3] == 'E' {
                if t.len() == 4 { Some(Symbol::Pepe) } else { None }
            } else {
                None
            }
        } else if t[1] == 'L' && t[2] == 'U' && t[3] == 'M' && t[4] == 'E' {
            if t.len() == 5 { Some(Symbol::Plume) } else { None }
        } else if t[1] == 'O' && t[2] == 'L' {
            if t.len() == 3 { Some(Symbol::Pol) } else { None }
        } else if t[1] == 'R' && t[2] == 'O' && t[3] == 'V' && t[4] == 'E' {
            if t.len() == 5 { Some(Symbol::Prove) } else { None }
        } else if t[1] == 'U' && t[2] == 'M' && t[3] == 'P' {
            if t.len() == 4 { Some(Symbol::Pump) } else { None }
        } else {
            None
        }
    } else if t[0] == 'Q' && t[1] == 'N' && t[2] == 'T' {
        if t.len() == 3 { Some(Symbol::Qnt) } else { None }
    } else if t[0] == 'R' {
        if t.len() == 1 {
            None
        } else if t[1] == 'A' && t[2] == 'Y' {
            if t.len() == 3 { Some(Symbol::Ray) } else { None }
        } else if t[1] == 'E' && t[2] == 'N' && t[3] == 'D' && t[4] == 'E' && t[5] == 'R' {
            if t.len() == 6 { Some(Symbol::Render) } else { None }
        } else if t[1] == 'O' && t[2] == 'N' && t[3] == 'I' && t[4] == 'N' {
            if t.len() == 5 { Some(Symbol::Ronin) } else { None }
        } else if t[1] == 'S' && t[2] == 'R' {
            if t.len() == 3 { Some(Symbol::Rsr) } else { None }
        } else if t[1] == 'U' && t[2] == 'N' && t[3] == 'E' {
            if t.len() == 4 { Some(Symbol::Rune) } else { None }
        } else {
            None
        }
    } else if t[0] == 'S' {
        if t.len() == 1 {
            None
        } else if t[1] == 'A' {
            if t.len() == 2 {
                None
            } else if t[2] == 'H' && t[3] == 'A' && t[4] == 'R' && t[5] == 'A' {
                if t.len() == 6 { Some(Symbol::Sahara) } else { None }
            } else if t[2] == 'N' && t[3] == 'D' {
                if t.len() == 4 { Some(Symbol::Sand) } else { None }
            } else {
                None
            }
        } else if t[1] == 'E' && t[2] == 'I' {
            if t.len() == 3 { Some(Symbol::Sei) } else { None }
        } else if t[1] == 'F' && t[2] == 'P' {
            if t.len() == 3 { Some(Symbol::Sfp) } else { None }
        } else if t[1] == 'H' && t[2] == 'I' && t[3] == 'B' {
            if t.len() == 4 { Some(Symbol::Shib) } else { None }
        } else if t[1] == 'O' {
            if t.len() == 2 {
                None
            } else if t[2] == 'L' {
                if t.len() == 3 { Some(Symbol::Sol) } else { None }
            } else if t[2] == 'M' && t[3] == 'I' {
                if t.len() == 4 { Some(Symbol::Somi) } else { None }
            } else {
                None
            }
        } else if t[1] == 'T' {
            if t.len() == 2 {
                None
            } else if t[2] == 'R' && t[3] == 'K' {
                if t.len() == 4 { Some(Symbol::Strk) } else { None }
            } else if t[2] == 'X' {
                if t.len() == 3 { Some(Symbol::Stx) } else { None }
            } else {
                None
            }
        } else if t[1] == 'U' {
            if t.len() == 2 {
                None
            } else if t[2] == 'I' {
                if t.len() == 3 { Some(Symbol::Sui) } else { None }
            } else if t[2] == 'N' {
                if t.len() == 3 { Some(Symbol::Sun) } else { None }
            } else if t[2] == 'P' && t[3] == 'E' && t[4] == 'R' {
                if t.len() == 5 { Some(Symbol::Super) } else { None }
            } else if t[2] == 'S' && t[3] == 'H' && t[4] == 'I' {
                if t.len() == 5 { Some(Symbol::Sushi) } else { None }
            } else {
                None
            }
        } else if t[1] == 'Y' && t[2] == 'R' && t[3] == 'U' && t[4] == 'P' {
            if t.len() == 5 { Some(Symbol::Syrup) } else { None }
        } else {
            None
        }
    } else if t[0] == 'T' {
        if t.len() == 1 {
            None
        } else if t[1] == 'A' && t[2] == 'O' {
            if t.len() == 3 { Some(Symbol::Tao) } else { None }
        } else if t[1] == 'H' && t[2] == 'E' && t[3] == 'T' && t[4] == 'A' {
            if t.len() == 5 { Some(Symbol::Theta) } else { None }
        } else if t[1] == 'I' && t[2] == 'A' {
            if t.len() == 3 { Some(Symbol::Tia) } else { None }
        } else if t[1] == 'O' && t[2] == 'N' {
            if t.len() == 3 { Some(Symbol::Ton) } else { None }
        } else if t[1] == 'R' {
            if t.len() == 2 {
                None
            } else if t[2] == 'U' && t[3] == 'M' && t[4] == 'P' {
                if t.len() == 5 { Some(Symbol::Trump) } else { None }
            } else if t[2] == 'X' {
                if t.len() == 3 { Some(Symbol::Trx) } else { None }
            } else {
                None
            }
        } else if t[1] == 'U' && t[2] == 'S' && t[3] == 'D' {
            if t.len() == 4 { Some(Symbol::Tusd) } else { None }
        } else if t[1] == 'W' && t[2] == 'T' {
            if t.len() == 3 { Some(Symbol::Twt) } else { None }
        } else {
            None
        }
    } else if t[0] == 'U' {
        if t.len() == 1 {
            None
        } else if t[1] == 'N' && t[2] == 'I' {
            if t.len() == 3 { Some(Symbol::Uni) } else { None }
        } else if t[1] == 'S' && t[2] == 'D' {
            if t.len() == 3 {
                None
            } else if t[3] == '1' {
                if t.len() == 4 { Some(Symbol::Usd1) } else { None }
            } else if t[3] == 'E' {
                if t.len() == 4 { Some(Symbol::Usde) } else { None }
            } else {
                None
            }
        } else {
            None
        }
    } else if t[0] == 'V' {
        if t.len() == 1 {
            None
        } else if t[1] == 'E' && t[2] == 'T' {
            if t.len() == 3 { Some(Symbol::Vet) } else { None }
        } else if t[1] == 'I' && t[2] == 'R' && t[3] == 'T' && t[4] == 'U' && t[5] == 'A' && t[6] == 'L' {
            if t.len() == 7 { Some(Symbol::Virtual) } else { None }
        } else {
            None
        }
    } else if t[0] == 'W' {
        if t.len() == 1 {
            None
        } else if t[1] == 'B' {
            if t.len() == 2 {
                None
            } else if t[2] == 'E' && t[3] == 'T' && t[4] == 'H' {
                if t.len() == 5 { Some(Symbol::Wbeth) } else { None }
            } else if t[2] == 'T' && t[3] == 'C' {
                if t.len() == 4 { Some(Symbol::Wbtc) } else { None }
            } else {
                None
            }
        } else if t[1] == 'I' && t[2] == 'F' {
            if t.len() == 3 { Some(Symbol::Wif) } else { None }
        } else if t[1] == 'L' {
            if t.len() == 2 {
                None
            } else if t[2] == 'D' {
                if t.len() == 3 { Some(Symbol::Wld) } else { None }
            } else if t[2] == 'F' && t[3] == 'I' {
                if t.len() == 4 { Some(Symbol::Wlfi) } else { None }
            } else {
                None
            }
        } else {
            None
        }
    } else if t[0] == 'X' {
        if t.len() == 1 {
            None
        } else if t[1] == 'E' && t[2] == 'C' {
            if t.len() == 3 { Some(Symbol::Xec) } else { None }
        } else if t[1] == 'L' && t[2] == 'M' {
            if t.len() == 3 { Some(Symbol::Xlm) } else { None }
        } else if t[1] == 'R' && t[2] == 'P' {
            if t.len() == 3 { Some(Symbol::Xrp) } else { None }
        } else if t[1] == 'T' && t[2] == 'Z' {
            if t.len() == 3 { Some(Symbol::Xtz) } else { None }
        } else if t[1] == 'U' && t[2] == 'S' && t[3] == 'D' {
            if t.len() == 4 { Some(Symbol::Xusd) } else { None }
        } else {
            None
        }
    } else if t[0] == 'Z' {
        if t.len() == 1 {
            None
        } else if t[1] == 'E' && t[2] == 'C' {
            if t.len() == 3 { Some(Symbol::Zec) } else { None }
        } else if t[1] == 'K' && t[2] == 'C' {
            if t.len() == 3 { Some(Symbol::Zkc) } else { None }
        } else if t[1] == 'R' {
            if t.len() == 2 {
                None
            } else if t[2] == 'O' {
                if t.len() == 3 { Some(Symbol::Zro) } else { None }
            } else if t[2] == 'X' {
                if t.len() == 3 { Some(Symbol::Zrx) } else { None }
            } else {
                None
            }
        } else {
            None
        }
    } else {
        None
    }
}

/// Each symbol's name is found by `name_lookup` and is made of upper-case
/// letters and digits; no name followed by `U`, `US`, `USD` or `USDT` is a
/// name.
pub proof fn lemma_symbol_name(s: Symbol)
    ensures
        name_lookup(s.name()) == Some(s),
        is_name_text(s.name()),
        name_lookup(s.name() + seq!['U']) is None,
        name_lookup(s.name() + seq!['U', 'S']) is None,
        name_lookup(s.name() + seq!['U', 'S', 'D']) is None,
        name_lookup(s.name() + seq!['U', 'S', 'D', 'T']) is None,
{
    match s {
        Symbol::Btc => {
            reveal_strlit("BTC");
        },
        Symbol::Eth => {
            reveal_strlit("ETH");
        },
        Symbol::Xrp => {
            reveal_strlit("XRP");
        },
        Symbol::Bnb => {
            reveal_strlit("BNB");
        },
        Symbol::Sol => {
            reveal_strlit("SOL");
        },
        Symbol::Doge => {
            reveal_strlit("DOGE");
        },
        Symbol::Ada => {
            reveal_strlit("ADA");
        },
        Symbol::Trx => {
            reveal_strlit("TRX");
        },
        Symbol::Wlfi => {
            reveal_strlit("WLFI");
        },
        Symbol::Wbtc => {
            reveal_strlit("WBTC");
        },
        Symbol::Link => {
            reveal_strlit("LINK");
        },
        Symbol::Avax => {
            reveal_strlit("AVAX");
        },
        Symbol::Usde => {
            reveal_strlit("USDE");
        },
        Symbol::Bch => {
            reveal_strlit("BCH");
        },
        Symbol::Xlm => {
            reveal_strlit("XLM");
        },
        Symbol::Sui => {
            reveal_strlit("SUI");
        },
        Symbol::Xusd => {
            reveal_strlit("XUSD");
        },
        Symbol::Usd1 => {
            reveal_strlit("USD1");
        },
        Symbol::Hbar => {
            reveal_strlit("HBAR");
        },
        Symbol::Wbeth => {
            reveal_strlit("WBETH");
        },
        Symbol::Ltc => {
            reveal_strlit("LTC");
        },
        Symbol::Trump => {
            reveal_strlit("TRUMP");
        },
        Symbol::Ton => {
            reveal_strlit("TON");
        },
        Symbol::Shib => {
            reveal_strlit("SHIB");
        },
        Symbol::Zkc => {
            reveal_strlit("ZKC");
        },
        Symbol::Pump => {
            reveal_strlit("PUMP");
        },
        Symbol::Dot => {
            reveal_strlit("DOT");
        },
        Symbol::Uni => {
            reveal_strlit("UNI");
        },
        Symbol::Aave => {
            reveal_strlit("AAVE");
        },
        Symbol::Pepe => {
            reveal_strlit("PEPE");
        },
        Symbol::Near => {
            reveal_strlit("NEAR");
        },
        Symbol::Etc => {
            reveal_strlit("ETC");
        },
        Symbol::Apt => {
            reveal_strlit("APT");
        },
        Symbol::Tao => {
            reveal_strlit("TAO");
        },
        Symbol::Icp => {
            reveal_strlit("ICP");
        },
        Symbol::Pengu => {
            reveal_strlit("PENGU");
        },
        Symbol::Linea => {
            reveal_strlit("LINEA");
        },
        Symbol::Pol => {
            reveal_strlit("POL");
        },
        Symbol::Arb => {
            reveal_strlit("ARB");
        },
        Symbol::Render => {
            reveal_strlit("RENDER");
        },
        Symbol::Vet => {
            reveal_strlit("VET");
        },
        Symbol::Ena => {
            reveal_strlit("ENA");
        },
        Symbol::Algo => {
            reveal_strlit("ALGO");
        },
        Symbol::Fdusd => {
            reveal_strlit("FDUSD");
        },
        Symbol::Bonk => {
            reveal_strlit("BONK");
        },
        Symbol::Atom => {
            reveal_strlit("ATOM");
        },
        Symbol::Bnsol => {
            reveal_strlit("BNSOL");
        },
        Symbol::Fet => {
            reveal_strlit("FET");
        },
        Symbol::Fil => {
            reveal_strlit("FIL");
        },
        Symbol::Imx => {
            reveal_strlit("IMX");
        },
        Symbol::Ondo => {
            reveal_strlit("ONDO");
        },
        Symbol::Inj => {
            reveal_strlit("INJ");
        },
        Symbol::Sei => {
            reveal_strlit("SEI");
        },
        Symbol::Bera => {
            reveal_strlit("BERA");
        },
        Symbol::Wld => {
            reveal_strlit("WLD");
        },
        Symbol::Virtual => {
            reveal_strlit("VIRTUAL");
        },
        Symbol::Somi => {
            reveal_strlit("SOMI");
        },
        Symbol::Qnt => {
            reveal_strlit("QNT");
        },
        Symbol::Kaito => {
            reveal_strlit("KAITO");
        },
        Symbol::Ldo => {
            reveal_strlit("LDO");
        },
        Symbol::Plume => {
            reveal_strlit("PLUME");
        },
        Symbol::Avnt => {
            reveal_strlit("AVNT");
        },
        Symbol::Stx => {
            reveal_strlit("STX");
        },
        Symbol::Bfusd => {
            reveal_strlit("BFUSD");
        },
        Symbol::Crv => {
            reveal_strlit("CRV");
        },
        Symbol::Bard => {
            reveal_strlit("BARD");
        },
        Symbol::Floki => {
            reveal_strlit("FLOKI");
        },
        Symbol::Ray => {
            reveal_strlit("RAY");
        },
        Symbol::Kaia => {
            reveal_strlit("KAIA");
        },
        Symbol::Wif => {
            reveal_strlit("WIF");
        },
        Symbol::Open => {
            reveal_strlit("OPEN");
        },
        Symbol::Grt => {
            reveal_strlit("GRT");
        },
        Symbol::Prove => {
            reveal_strlit("PROVE");
        },
        Symbol::Cfx => {
            reveal_strlit("CFX");
        },
        Symbol::Sahara => {
            reveal_strlit("SAHARA");
        },
        Symbol::Tia => {
            reveal_strlit("TIA");
        },
        Symbol::Theta => {
            reveal_strlit("THETA");
        },
        Symbol::Nexo => {
            reveal_strlit("NEXO");
        },
        Symbol::Ens => {
            reveal_strlit("ENS");
        },
        Symbol::Kmno => {
            reveal_strlit("KMNO");
        },
        Symbol::Pendle => {
            reveal_strlit("PENDLE");
        },
        Symbol::Zec => {
            reveal_strlit("ZEC");
        },
        Symbol::Cake => {
            reveal_strlit("CAKE");
        },
        Symbol::Xtz => {
            reveal_strlit("XTZ");
        },
        Symbol::Sand => {
            reveal_strlit("SAND");
        },
        Symbol::Holo => {
            reveal_strlit("HOLO");
        },
        Symbol::Form => {
            reveal_strlit("FORM");
        },
        Symbol::Flow => {
            reveal_strlit("FLOW");
        },
        Symbol::Mana => {
            reveal_strlit("MANA");
        },
        Symbol::Bttc => {
            reveal_strlit("BTTC");
        },
        Symbol::Eigen => {
            reveal_strlit("EIGEN");
        },
        Symbol::Zro => {
            reveal_strlit("ZRO");
        },
        Symbol::Strk => {
            reveal_strlit("STRK");
        },
        Symbol::Rune => {
            reveal_strlit("RUNE");
        },
        Symbol::Ape => {
            reveal_strlit("APE");
        },
        Symbol::Dydx => {
            reveal_strlit("DYDX");
        },
        Symbol::Syrup => {
            reveal_strlit("SYRUP");
        },
        Symbol::Twt => {
            reveal_strlit("TWT");
        },
        Symbol::Tusd => {
            reveal_strlit("TUSD");
        },
        Symbol::Sun => {
            reveal_strlit("SUN");
        },
        Symbol::Rsr => {
            reveal_strlit("RSR");
        },
        Symbol::Chz => {
            reveal_strlit("CHZ");
        },
        Symbol::Comp => {
            reveal_strlit("COMP");
        },
        Symbol::Egld => {
            reveal_strlit("EGLD");
        },
        Symbol::Beamx => {
            reveal_strlit("BEAMX");
        },
        Symbol::Xec => {
            reveal_strlit("XEC");
        },
        Symbol::Cvx => {
            reveal_strlit("CVX");
        },
        Symbol::Inch1 => {
            reveal_strlit("1INCH");
        },
        Symbol::Gno => {
            reveal_strlit("GNO");
        },
        Symbol::Super => {
            reveal_strlit("SUPER");
        },
        Symbol::Kava => {
            reveal_strlit("KAVA");
        },
        Symbol::Move => {
            reveal_strlit("MOVE");
        },
        Symbol::Ronin => {
            reveal_strlit("RONIN");
        },
        Symbol::Axl => {
            reveal_strlit("AXL");
        },
        Symbol::Bio => {
            reveal_strlit("BIO");
        },
        Symbol::Lunc => {
            reveal_strlit("LUNC");
        },
        Symbol::Ftt => {
            reveal_strlit("FTT");
        },
        Symbol::Jst => {
            reveal_strlit("JST");
        },
        Symbol::Lpt => {
            reveal_strlit("LPT");
        },
        Symbol::Sfp => {
            reveal_strlit("SFP");
        },
        Symbol::Mina => {
            reveal_strlit("MINA");
        },
        Symbol::Cheems1000 => {
            reveal_strlit("1000CHEEMS");
        },
        Symbol::Zrx => {
            reveal_strlit("ZRX");
        },
        Symbol::Sushi => {
            reveal_strlit("SUSHI");
        },
        Symbol::Blur => {
            reveal_strlit("BLUR");
        },
        Symbol::Gas => {
            reveal_strlit("GAS");
        },
        Symbol::Ordi => {
            reveal_strlit("ORDI");
        },
    }
}

/// Distinct symbols have distinct names.
pub proof fn lemma_names_unique(s1: Symbol, s2: Symbol)
    ensures
        s1.name() == s2.name() ==> s1 == s2,
{
    lemma_symbol_name(s1);
    lemma_symbol_name(s2);
}

} // verus!
