//! The keys that the browser names in keyboard events, by name.
use vstd::prelude::*;
use vstd::utf8::*;

verus! {

/// The keys that keyboard events are told apart by.
#[derive(Debug, Clone, Copy, PartialEq, Eq, Structural)]
pub enum KeyCode {
    A,
    B,
    C,
    D,
    E,
    F,
    G,
    H,
    I,
    J,
    K,
    L,
    M,
    N,
    O,
    P,
    Q,
    R,
    S,
    T,
    U,
    V,
    W,
    X,
    Y,
    Z,
    Num0,
    Num1,
    Num2,
    Num3,
    Num4,
    Num5,
    Num6,
    Num7,
    Num8,
    Num9,
    Enter,
    Escape,
    Backspace,
    Tab,
    Space,
    Left,
    Right,
    Up,
    Down,
    Shift,
    Control,
    Alt,
    Meta,
    Unknown,
}

/// Whether two byte slices hold the same bytes.
fn bytes_equal(a: &[u8], b: &[u8]) -> (r: bool)
    ensures
        r == (a@ == b@),
{
    if a.len() != b.len() {
        return false;
    }
    let mut i: usize = 0;
    while i < a.len()
        invariant
            a@.len() == b@.len(),
            i <= a@.len(),
            forall|j: int| 0 <= j < i ==> a@[j] == b@[j],
        decreases a@.len() - i,
    {
        if a[i] != b[i] {
            return false;
        }
        i = i + 1;
    }
    assert(a@ =~= b@);
    true
}

/// Whether two texts are the same.
fn same_text(a: &str, b: &str) -> (r: bool)
    ensures
        r == (a@ == b@),
{
    let r = bytes_equal(a.as_bytes(), b.as_bytes());
    proof {
        encode_utf8_decode_utf8(a@);
        encode_utf8_decode_utf8(b@);
    }
    r
}

/// The key that a browser key name stands for: a letter in either case, a
/// digit, or one of the named keys; any other name is `Unknown`.
pub open spec fn key_code_of(key: Seq<char>) -> KeyCode {
    if key == "a"@ || key == "A"@ {
        KeyCode::A
    } else     if key == "b"@ || key == "B"@ {
        KeyCode::B
    } else     if key == "c"@ || key == "C"@ {
        KeyCode::C
    } else     if key == "d"@ || key == "D"@ {
        KeyCode::D
    } else     if key == "e"@ || key == "E"@ {
        KeyCode::E
    } else     if key == "f"@ || key == "F"@ {
        KeyCode::F
    } else     if key == "g"@ || key == "G"@ {
        KeyCode::G
    } else     if key == "h"@ || key == "H"@ {
        KeyCode::H
    } else     if key == "i"@ || key == "I"@ {
        KeyCode::I
    } else     if key == "j"@ || key == "J"@ {
        KeyCode::J
    } else     if key == "k"@ || key == "K"@ {
        KeyCode::K
    } else     if key == "l"@ || key == "L"@ {
        KeyCode::L
    } else     if key == "m"@ || key == "M"@ {
        KeyCode::M
    } else     if key == "n"@ || key == "N"@ {
        KeyCode::N
    } else     if key == "o"@ || key == "O"@ {
        KeyCode::O
    } else     if key == "p"@ || key == "P"@ {
        KeyCode::P
    } else     if key == "q"@ || key == "Q"@ {
        KeyCode::Q
    } else     if key == "r"@ || key == "R"@ {
        KeyCode::R
    } else     if key == "s"@ || key == "S"@ {
        KeyCode::S
    } else     if key == "t"@ || key == "T"@ {
        KeyCode::T
    } else     if key == "u"@ || key == "U"@ {
        KeyCode::U
    } else     if key == "v"@ || key == "V"@ {
        KeyCode::V
    } else     if key == "w"@ || key == "W"@ {
        KeyCode::W
    } else     if key == "x"@ || key == "X"@ {
        KeyCode::X
    } else     if key == "y"@ || key == "Y"@ {
        KeyCode::Y
    } else     if key == "z"@ || key == "Z"@ {
        KeyCode::Z
    } else     if key == "0"@ {
        KeyCode::Num0
    } else     if key == "1"@ {
        KeyCode::Num1
    } else     if key == "2"@ {
        KeyCode::Num2
    } else     if key == "3"@ {
        KeyCode::Num3
    } else     if key == "4"@ {
        KeyCode::Num4
    } else     if key == "5"@ {
        KeyCode::Num5
    } else     if key == "6"@ {
        KeyCode::Num6
    } else     if key == "7"@ {
        KeyCode::Num7
    } else     if key == "8"@ {
        KeyCode::Num8
    } else     if key == "9"@ {
        KeyCode::Num9
    } else     if key == "Enter"@ {
        KeyCode::Enter
    } else     if key == "Escape"@ {
        KeyCode::Escape
    } else     if key == "Backspace"@ {
        KeyCode::Backspace
    } else     if key == "Tab"@ {
        KeyCode::Tab
    } else     if key == " "@ {
        KeyCode::Space
    } else     if key == "ArrowLeft"@ {
        KeyCode::Left
    } else     if key == "ArrowRight"@ {
        KeyCode::Right
    } else     if key == "ArrowUp"@ {
        KeyCode::Up
    } else     if key == "ArrowDown"@ {
        KeyCode::Down
    } else     if key == "Shift"@ {
        KeyCode::Shift
    } else     if key == "Control"@ {
        KeyCode::Control
    } else     if key == "Alt"@ {
        KeyCode::Alt
    } else     if key == "Meta"@ {
        KeyCode::Meta
    } else {
        KeyCode::Unknown
    }
}

/// The key that the browser key name `key` stands for.
pub fn map_key_code(key: &str) -> (code: KeyCode)
    ensures
        code == key_code_of(key@),
{
    if same_text(key, "a") || same_text(key, "A") {
        KeyCode::A
    } else     if same_text(key, "b") || same_text(key, "B") {
        KeyCode::B
    } else     if same_text(key, "c") || same_text(key, "C") {
        KeyCode::C
    } else     if same_text(key, "d") || same_text(key, "D") {
        KeyCode::D
    } else     if same_text(key, "e") || same_text(key, "E") {
        KeyCode::E
    } else     if same_text(key, "f") || same_text(key, "F") {
        KeyCode::F
    } else     if same_text(key, "g") || same_text(key, "G") {
        KeyCode::G
    } else     if same_text(key, "h") || same_text(key, "H") {
        KeyCode::H
    } else     if same_text(key, "i") || same_text(key, "I") {
        KeyCode::I
    } else     if same_text(key, "j") || same_text(key, "J") {
        KeyCode::J
    } else     if same_text(key, "k") || same_text(key, "K") {
        KeyCode::K
    } else     if same_text(key, "l") || same_text(key, "L") {
        KeyCode::L
    } else     if same_text(key, "m") || same_text(key, "M") {
        KeyCode::M
    } else     if same_text(key, "n") || same_text(key, "N") {
        KeyCode::N
    } else     if same_text(key, "o") || same_text(key, "O") {
        KeyCode::O
    } else     if same_text(key, "p") || same_text(key, "P") {
        KeyCode::P
    } else     if same_text(key, "q") || same_text(key, "Q") {
        KeyCode::Q
    } else     if same_text(key, "r") || same_text(key, "R") {
        KeyCode::R
    } else     if same_text(key, "s") || same_text(key, "S") {
        KeyCode::S
    } else     if same_text(key, "t") || same_text(key, "T") {
        KeyCode::T
    } else     if same_text(key, "u") || same_text(key, "U") {
        KeyCode::U
    } else     if same_text(key, "v") || same_text(key, "V") {
        KeyCode::V
    } else     if same_text(key, "w") || same_text(key, "W") {
        KeyCode::W
    } else     if same_text(key, "x") || same_text(key, "X") {
        KeyCode::X
    } else     if same_text(key, "y") || same_text(key, "Y") {
        KeyCode::Y
    } else     if same_text(key, "z") || same_text(key, "Z") {
        KeyCode::Z
    } else     if same_text(key, "0") {
        KeyCode::Num0
    } else     if same_text(key, "1") {
        KeyCode::Num1
    } else     if same_text(key, "2") {
        KeyCode::Num2
    } else     if same_text(key, "3") {
        KeyCode::Num3
    } else     if same_text(key, "4") {
        KeyCode::Num4
    } else     if same_text(key, "5") {
        KeyCode::Num5
    } else     if same_text(key, "6") {
        KeyCode::Num6
    } else     if same_text(key, "7") {
        KeyCode::Num7
    } else     if same_text(key, "8") {
        KeyCode::Num8
    } else     if same_text(key, "9") {
        KeyCode::Num9
    } else     if same_text(key, "Enter") {
        KeyCode::Enter
    } else     if same_text(key, "Escape") {
        KeyCode::Escape
    } else     if same_text(key, "Backspace") {
        KeyCode::Backspace
    } else     if same_text(key, "Tab") {
        KeyCode::Tab
    } else     if same_text(key, " ") {
        KeyCode::Space
    } else     if same_text(key, "ArrowLeft") {
        KeyCode::Left
    } else     if same_text(key, "ArrowRight") {
        KeyCode::Right
    } else     if same_text(key, "ArrowUp") {
        KeyCode::Up
    } else     if same_text(key, "ArrowDown") {
        KeyCode::Down
    } else     if same_text(key, "Shift") {
        KeyCode::Shift
    } else     if same_text(key, "Control") {
        KeyCode::Control
    } else     if same_text(key, "Alt") {
        KeyCode::Alt
    } else     if same_text(key, "Meta") {
        KeyCode::Meta
    } else {
        KeyCode::Unknown
    }
}


/// How each key name that the browser gives is spelled, letter by letter.
proof fn lemma_key_names_spelled()
    ensures
        "a"@.len() == 1,
        "a"@[0] == 'a',
        "A"@.len() == 1,
        "A"@[0] == 'A',
        "b"@.len() == 1,
        "b"@[0] == 'b',
        "B"@.len() == 1,
        "B"@[0] == 'B',
        "c"@.len() == 1,
        "c"@[0] == 'c',
        "C"@.len() == 1,
        "C"@[0] == 'C',
        "d"@.len() == 1,
        "d"@[0] == 'd',
        "D"@.len() == 1,
        "D"@[0] == 'D',
        "e"@.len() == 1,
        "e"@[0] == 'e',
        "E"@.len() == 1,
        "E"@[0] == 'E',
        "f"@.len() == 1,
        "f"@[0] == 'f',
        "F"@.len() == 1,
        "F"@[0] == 'F',
        "g"@.len() == 1,
        "g"@[0] == 'g',
        "G"@.len() == 1,
        "G"@[0] == 'G',
        "h"@.len() == 1,
        "h"@[0] == 'h',
        "H"@.len() == 1,
        "H"@[0] == 'H',
        "i"@.len() == 1,
        "i"@[0] == 'i',
        "I"@.len() == 1,
        "I"@[0] == 'I',
        "j"@.len() == 1,
        "j"@[0] == 'j',
        "J"@.len() == 1,
        "J"@[0] == 'J',
        "k"@.len() == 1,
        "k"@[0] == 'k',
        "K"@.len() == 1,
        "K"@[0] == 'K',
        "l"@.len() == 1,
        "l"@[0] == 'l',
        "L"@.len() == 1,
        "L"@[0] == 'L',
        "m"@.len() == 1,
        "m"@[0] == 'm',
        "M"@.len() == 1,
        "M"@[0] == 'M',
        "n"@.len() == 1,
        "n"@[0] == 'n',
        "N"@.len() == 1,
        "N"@[0] == 'N',
        "o"@.len() == 1,
        "o"@[0] == 'o',
        "O"@.len() == 1,
        "O"@[0] == 'O',
        "p"@.len() == 1,
        "p"@[0] == 'p',
        "P"@.len() == 1,
        "P"@[0] == 'P',
        "q"@.len() == 1,
        "q"@[0] == 'q',
        "Q"@.len() == 1,
        "Q"@[0] == 'Q',
        "r"@.len() == 1,
        "r"@[0] == 'r',
        "R"@.len() == 1,
        "R"@[0] == 'R',
        "s"@.len() == 1,
        "s"@[0] == 's',
        "S"@.len() == 1,
        "S"@[0] == 'S',
        "t"@.len() == 1,
        "t"@[0] == 't',
        "T"@.len() == 1,
        "T"@[0] == 'T',
        "u"@.len() == 1,
        "u"@[0] == 'u',
        "U"@.len() == 1,
        "U"@[0] == 'U',
        "v"@.len() == 1,
        "v"@[0] == 'v',
        "V"@.len() == 1,
        "V"@[0] == 'V',
        "w"@.len() == 1,
        "w"@[0] == 'w',
        "W"@.len() == 1,
        "W"@[0] == 'W',
        "x"@.len() == 1,
        "x"@[0] == 'x',
        "X"@.len() == 1,
        "X"@[0] == 'X',
        "y"@.len() == 1,
        "y"@[0] == 'y',
        "Y"@.len() == 1,
        "Y"@[0] == 'Y',
        "z"@.len() == 1,
        "z"@[0] == 'z',
        "Z"@.len() == 1,
        "Z"@[0] == 'Z',
        "0"@.len() == 1,
        "0"@[0] == '0',
        "1"@.len() == 1,
        "1"@[0] == '1',
        "2"@.len() == 1,
        "2"@[0] == '2',
        "3"@.len() == 1,
        "3"@[0] == '3',
        "4"@.len() == 1,
        "4"@[0] == '4',
        "5"@.len() == 1,
        "5"@[0] == '5',
        "6"@.len() == 1,
        "6"@[0] == '6',
        "7"@.len() == 1,
        "7"@[0] == '7',
        "8"@.len() == 1,
        "8"@[0] == '8',
        "9"@.len() == 1,
        "9"@[0] == '9',
        "Enter"@.len() == 5,
        "Enter"@[0] == 'E',
        "Enter"@[1] == 'n',
        "Enter"@[2] == 't',
        "Enter"@[3] == 'e',
        "Enter"@[4] == 'r',
        "Escape"@.len() == 6,
        "Escape"@[0] == 'E',
        "Escape"@[1] == 's',
        "Escape"@[2] == 'c',
        "Escape"@[3] == 'a',
        "Escape"@[4] == 'p',
        "Escape"@[5] == 'e',
        "Backspace"@.len() == 9,
        "Backspace"@[0] == 'B',
        "Backspace"@[1] == 'a',
        "Backspace"@[2] == 'c',
        "Backspace"@[3] == 'k',
        "Backspace"@[4] == 's',
        "Backspace"@[5] == 'p',
        "Backspace"@[6] == 'a',
        "Backspace"@[7] == 'c',
        "Backspace"@[8] == 'e',
        "Tab"@.len() == 3,
        "Tab"@[0] == 'T',
        "Tab"@[1] == 'a',
        "Tab"@[2] == 'b',
        " "@.len() == 1,
        " "@[0] == ' ',
        "ArrowLeft"@.len() == 9,
        "ArrowLeft"@[0] == 'A',
        "ArrowLeft"@[1] == 'r',
        "ArrowLeft"@[2] == 'r',
        "ArrowLeft"@[3] == 'o',
        "ArrowLeft"@[4] == 'w',
        "ArrowLeft"@[5] == 'L',
        "ArrowLeft"@[6] == 'e',
        "ArrowLeft"@[7] == 'f',
        "ArrowLeft"@[8] == 't',
        "ArrowRight"@.len() == 10,
        "ArrowRight"@[0] == 'A',
        "ArrowRight"@[1] == 'r',
        "ArrowRight"@[2] == 'r',
        "ArrowRight"@[3] == 'o',
        "ArrowRight"@[4] == 'w',
        "ArrowRight"@[5] == 'R',
        "ArrowRight"@[6] == 'i',
        "ArrowRight"@[7] == 'g',
        "ArrowRight"@[8] == 'h',
        "ArrowRight"@[9] == 't',
        "ArrowUp"@.len() == 7,
        "ArrowUp"@[0] == 'A',
        "ArrowUp"@[1] == 'r',
        "ArrowUp"@[2] == 'r',
        "ArrowUp"@[3] == 'o',
        "ArrowUp"@[4] == 'w',
        "ArrowUp"@[5] == 'U',
        "ArrowUp"@[6] == 'p',
        "ArrowDown"@.len() == 9,
        "ArrowDown"@[0] == 'A',
        "ArrowDown"@[1] == 'r',
        "ArrowDown"@[2] == 'r',
        "ArrowDown"@[3] == 'o',
        "ArrowDown"@[4] == 'w',
        "ArrowDown"@[5] == 'D',
        "ArrowDown"@[6] == 'o',
        "ArrowDown"@[7] == 'w',
        "ArrowDown"@[8] == 'n',
        "Shift"@.len() == 5,
        "Shift"@[0] == 'S',
        "Shift"@[1] == 'h',
        "Shift"@[2] == 'i',
        "Shift"@[3] == 'f',
        "Shift"@[4] == 't',
        "Control"@.len() == 7,
        "Control"@[0] == 'C',
        "Control"@[1] == 'o',
        "Control"@[2] == 'n',
        "Control"@[3] == 't',
        "Control"@[4] == 'r',
        "Control"@[5] == 'o',
        "Control"@[6] == 'l',
        "Alt"@.len() == 3,
        "Alt"@[0] == 'A',
        "Alt"@[1] == 'l',
        "Alt"@[2] == 't',
        "Meta"@.len() == 4,
        "Meta"@[0] == 'M',
        "Meta"@[1] == 'e',
        "Meta"@[2] == 't',
        "Meta"@[3] == 'a',
{
    assert("a"@.len() == 1 && "a"@[0] == 'a') by {
        reveal_strlit("a");
    }
    assert("A"@.len() == 1 && "A"@[0] == 'A') by {
        reveal_strlit("A");
    }
    assert("b"@.len() == 1 && "b"@[0] == 'b') by {
        reveal_strlit("b");
    }
    assert("B"@.len() == 1 && "B"@[0] == 'B') by {
        reveal_strlit("B");
    }
    assert("c"@.len() == 1 && "c"@[0] == 'c') by {
        reveal_strlit("c");
    }
    assert("C"@.len() == 1 && "C"@[0] == 'C') by {
        reveal_strlit("C");
    }
    assert("d"@.len() == 1 && "d"@[0] == 'd') by {
        reveal_strlit("d");
    }
    assert("D"@.len() == 1 && "D"@[0] == 'D') by {
        reveal_strlit("D");
    }
    assert("e"@.len() == 1 && "e"@[0] == 'e') by {
        reveal_strlit("e");
    }
    assert("E"@.len() == 1 && "E"@[0] == 'E') by {
        reveal_strlit("E");
    }
    assert("f"@.len() == 1 && "f"@[0] == 'f') by {
        reveal_strlit("f");
    }
    assert("F"@.len() == 1 && "F"@[0] == 'F') by {
        reveal_strlit("F");
    }
    assert("g"@.len() == 1 && "g"@[0] == 'g') by {
        reveal_strlit("g");
    }
    assert("G"@.len() == 1 && "G"@[0] == 'G') by {
        reveal_strlit("G");
    }
    assert("h"@.len() == 1 && "h"@[0] == 'h') by {
        reveal_strlit("h");
    }
    assert("H"@.len() == 1 && "H"@[0] == 'H') by {
        reveal_strlit("H");
    }
    assert("i"@.len() == 1 && "i"@[0] == 'i') by {
        reveal_strlit("i");
    }
    assert("I"@.len() == 1 && "I"@[0] == 'I') by {
        reveal_strlit("I");
    }
    assert("j"@.len() == 1 && "j"@[0] == 'j') by {
        reveal_strlit("j");
    }
    assert("J"@.len() == 1 && "J"@[0] == 'J') by {
        reveal_strlit("J");
    }
    assert("k"@.len() == 1 && "k"@[0] == 'k') by {
        reveal_strlit("k");
    }
    assert("K"@.len() == 1 && "K"@[0] == 'K') by {
        reveal_strlit("K");
    }
    assert("l"@.len() == 1 && "l"@[0] == 'l') by {
        reveal_strlit("l");
    }
    assert("L"@.len() == 1 && "L"@[0] == 'L') by {
        reveal_strlit("L");
    }
    assert("m"@.len() == 1 && "m"@[0] == 'm') by {
        reveal_strlit("m");
    }
    assert("M"@.len() == 1 && "M"@[0] == 'M') by {
        reveal_strlit("M");
    }
    assert("n"@.len() == 1 && "n"@[0] == 'n') by {
        reveal_strlit("n");
    }
    assert("N"@.len() == 1 && "N"@[0] == 'N') by {
        reveal_strlit("N");
    }
    assert("o"@.len() == 1 && "o"@[0] == 'o') by {
        reveal_strlit("o");
    }
    assert("O"@.len() == 1 && "O"@[0] == 'O') by {
        reveal_strlit("O");
    }
    assert("p"@.len() == 1 && "p"@[0] == 'p') by {
        reveal_strlit("p");
    }
    assert("P"@.len() == 1 && "P"@[0] == 'P') by {
        reveal_strlit("P");
    }
    assert("q"@.len() == 1 && "q"@[0] == 'q') by {
        reveal_strlit("q");
    }
    assert("Q"@.len() == 1 && "Q"@[0] == 'Q') by {
        reveal_strlit("Q");
    }
    assert("r"@.len() == 1 && "r"@[0] == 'r') by {
        reveal_strlit("r");
    }
    assert("R"@.len() == 1 && "R"@[0] == 'R') by {
        reveal_strlit("R");
    }
    assert("s"@.len() == 1 && "s"@[0] == 's') by {
        reveal_strlit("s");
    }
    assert("S"@.len() == 1 && "S"@[0] == 'S') by {
        reveal_strlit("S");
    }
    assert("t"@.len() == 1 && "t"@[0] == 't') by {
        reveal_strlit("t");
    }
    assert("T"@.len() == 1 && "T"@[0] == 'T') by {
        reveal_strlit("T");
    }
    assert("u"@.len() == 1 && "u"@[0] == 'u') by {
        reveal_strlit("u");
    }
    assert("U"@.len() == 1 && "U"@[0] == 'U') by {
        reveal_strlit("U");
    }
    assert("v"@.len() == 1 && "v"@[0] == 'v') by {
        reveal_strlit("v");
    }
    assert("V"@.len() == 1 && "V"@[0] == 'V') by {
        reveal_strlit("V");
    }
    assert("w"@.len() == 1 && "w"@[0] == 'w') by {
        reveal_strlit("w");
    }
    assert("W"@.len() == 1 && "W"@[0] == 'W') by {
        reveal_strlit("W");
    }
    assert("x"@.len() == 1 && "x"@[0] == 'x') by {
        reveal_strlit("x");
    }
    assert("X"@.len() == 1 && "X"@[0] == 'X') by {
        reveal_strlit("X");
    }
    assert("y"@.len() == 1 && "y"@[0] == 'y') by {
        reveal_strlit("y");
    }
    assert("Y"@.len() == 1 && "Y"@[0] == 'Y') by {
        reveal_strlit("Y");
    }
    assert("z"@.len() == 1 && "z"@[0] == 'z') by {
        reveal_strlit("z");
    }
    assert("Z"@.len() == 1 && "Z"@[0] == 'Z') by {
        reveal_strlit("Z");
    }
    assert("0"@.len() == 1 && "0"@[0] == '0') by {
        reveal_strlit("0");
    }
    assert("1"@.len() == 1 && "1"@[0] == '1') by {
        reveal_strlit("1");
    }
    assert("2"@.len() == 1 && "2"@[0] == '2') by {
        reveal_strlit("2");
    }
    assert("3"@.len() == 1 && "3"@[0] == '3') by {
        reveal_strlit("3");
    }
    assert("4"@.len() == 1 && "4"@[0] == '4') by {
        reveal_strlit("4");
    }
    assert("5"@.len() == 1 && "5"@[0] == '5') by {
        reveal_strlit("5");
    }
    assert("6"@.len() == 1 && "6"@[0] == '6') by {
        reveal_strlit("6");
    }
    assert("7"@.len() == 1 && "7"@[0] == '7') by {
        reveal_strlit("7");
    }
    assert("8"@.len() == 1 && "8"@[0] == '8') by {
        reveal_strlit("8");
    }
    assert("9"@.len() == 1 && "9"@[0] == '9') by {
        reveal_strlit("9");
    }
    assert("Enter"@.len() == 5 && "Enter"@[0] == 'E' && "Enter"@[1] == 'n' && "Enter"@[2] == 't' && "Enter"@[3] == 'e' && "Enter"@[4] == 'r') by {
        reveal_strlit("Enter");
    }
    assert("Escape"@.len() == 6 && "Escape"@[0] == 'E' && "Escape"@[1] == 's' && "Escape"@[2] == 'c' && "Escape"@[3] == 'a' && "Escape"@[4] == 'p' && "Escape"@[5] == 'e') by {
        reveal_strlit("Escape");
    }
    assert("Backspace"@.len() == 9 && "Backspace"@[0] == 'B' && "Backspace"@[1] == 'a' && "Backspace"@[2] == 'c' && "Backspace"@[3] == 'k' && "Backspace"@[4] == 's' && "Backspace"@[5] == 'p' && "Backspace"@[6] == 'a' && "Backspace"@[7] == 'c' && "Backspace"@[8] == 'e') by {
        reveal_strlit("Backspace");
    }
    assert("Tab"@.len() == 3 && "Tab"@[0] == 'T' && "Tab"@[1] == 'a' && "Tab"@[2] == 'b') by {
        reveal_strlit("Tab");
    }
    assert(" "@.len() == 1 && " "@[0] == ' ') by {
        reveal_strlit(" ");
    }
    assert("ArrowLeft"@.len() == 9 && "ArrowLeft"@[0] == 'A' && "ArrowLeft"@[1] == 'r' && "ArrowLeft"@[2] == 'r' && "ArrowLeft"@[3] == 'o' && "ArrowLeft"@[4] == 'w' && "ArrowLeft"@[5] == 'L' && "ArrowLeft"@[6] == 'e' && "ArrowLeft"@[7] == 'f' && "ArrowLeft"@[8] == 't') by {
        reveal_strlit("ArrowLeft");
    }
    assert("ArrowRight"@.len() == 10 && "ArrowRight"@[0] == 'A' && "ArrowRight"@[1] == 'r' && "ArrowRight"@[2] == 'r' && "ArrowRight"@[3] == 'o' && "ArrowRight"@[4] == 'w' && "ArrowRight"@[5] == 'R' && "ArrowRight"@[6] == 'i' && "ArrowRight"@[7] == 'g' && "ArrowRight"@[8] == 'h' && "ArrowRight"@[9] == 't') by {
        reveal_strlit("ArrowRight");
    }
    assert("ArrowUp"@.len() == 7 && "ArrowUp"@[0] == 'A' && "ArrowUp"@[1] == 'r' && "ArrowUp"@[2] == 'r' && "ArrowUp"@[3] == 'o' && "ArrowUp"@[4] == 'w' && "ArrowUp"@[5] == 'U' && "ArrowUp"@[6] == 'p') by {
        reveal_strlit("ArrowUp");
    }
    assert("ArrowDown"@.len() == 9 && "ArrowDown"@[0] == 'A' && "ArrowDown"@[1] == 'r' && "ArrowDown"@[2] == 'r' && "ArrowDown"@[3] == 'o' && "ArrowDown"@[4] == 'w' && "ArrowDown"@[5] == 'D' && "ArrowDown"@[6] == 'o' && "ArrowDown"@[7] == 'w' && "ArrowDown"@[8] == 'n') by {
        reveal_strlit("ArrowDown");
    }
    assert("Shift"@.len() == 5 && "Shift"@[0] == 'S' && "Shift"@[1] == 'h' && "Shift"@[2] == 'i' && "Shift"@[3] == 'f' && "Shift"@[4] == 't') by {
        reveal_strlit("Shift");
    }
    assert("Control"@.len() == 7 && "Control"@[0] == 'C' && "Control"@[1] == 'o' && "Control"@[2] == 'n' && "Control"@[3] == 't' && "Control"@[4] == 'r' && "Control"@[5] == 'o' && "Control"@[6] == 'l') by {
        reveal_strlit("Control");
    }
    assert("Alt"@.len() == 3 && "Alt"@[0] == 'A' && "Alt"@[1] == 'l' && "Alt"@[2] == 't') by {
        reveal_strlit("Alt");
    }
    assert("Meta"@.len() == 4 && "Meta"@[0] == 'M' && "Meta"@[1] == 'e' && "Meta"@[2] == 't' && "Meta"@[3] == 'a') by {
        reveal_strlit("Meta");
    }
}

/// Every name the browser gives a key stands for that key: a letter in
/// either case for its letter, a digit for its digit, and each named key
/// ("Enter", " ", "ArrowRight", ...) for its own code.
pub proof fn law_named_keys()
    ensures
        key_code_of("a"@) == KeyCode::A,
        key_code_of("A"@) == KeyCode::A,
        key_code_of("b"@) == KeyCode::B,
        key_code_of("B"@) == KeyCode::B,
        key_code_of("c"@) == KeyCode::C,
        key_code_of("C"@) == KeyCode::C,
        key_code_of("d"@) == KeyCode::D,
        key_code_of("D"@) == KeyCode::D,
        key_code_of("e"@) == KeyCode::E,
        key_code_of("E"@) == KeyCode::E,
        key_code_of("f"@) == KeyCode::F,
        key_code_of("F"@) == KeyCode::F,
        key_code_of("g"@) == KeyCode::G,
        key_code_of("G"@) == KeyCode::G,
        key_code_of("h"@) == KeyCode::H,
        key_code_of("H"@) == KeyCode::H,
        key_code_of("i"@) == KeyCode::I,
        key_code_of("I"@) == KeyCode::I,
        key_code_of("j"@) == KeyCode::J,
        key_code_of("J"@) == KeyCode::J,
        key_code_of("k"@) == KeyCode::K,
        key_code_of("K"@) == KeyCode::K,
        key_code_of("l"@) == KeyCode::L,
        key_code_of("L"@) == KeyCode::L,
        key_code_of("m"@) == KeyCode::M,
        key_code_of("M"@) == KeyCode::M,
        key_code_of("n"@) == KeyCode::N,
        key_code_of("N"@) == KeyCode::N,
        key_code_of("o"@) == KeyCode::O,
        key_code_of("O"@) == KeyCode::O,
        key_code_of("p"@) == KeyCode::P,
        key_code_of("P"@) == KeyCode::P,
        key_code_of("q"@) == KeyCode::Q,
        key_code_of("Q"@) == KeyCode::Q,
        key_code_of("r"@) == KeyCode::R,
        key_code_of("R"@) == KeyCode::R,
        key_code_of("s"@) == KeyCode::S,
        key_code_of("S"@) == KeyCode::S,
        key_code_of("t"@) == KeyCode::T,
        key_code_of("T"@) == KeyCode::T,
        key_code_of("u"@) == KeyCode::U,
        key_code_of("U"@) == KeyCode::U,
        key_code_of("v"@) == KeyCode::V,
        key_code_of("V"@) == KeyCode::V,
        key_code_of("w"@) == KeyCode::W,
        key_code_of("W"@) == KeyCode::W,
        key_code_of("x"@) == KeyCode::X,
        key_code_of("X"@) == KeyCode::X,
        key_code_of("y"@) == KeyCode::Y,
        key_code_of("Y"@) == KeyCode::Y,
        key_code_of("z"@) == KeyCode::Z,
        key_code_of("Z"@) == KeyCode::Z,
        key_code_of("0"@) == KeyCode::Num0,
        key_code_of("1"@) == KeyCode::Num1,
        key_code_of("2"@) == KeyCode::Num2,
        key_code_of("3"@) == KeyCode::Num3,
        key_code_of("4"@) == KeyCode::Num4,
        key_code_of("5"@) == KeyCode::Num5,
        key_code_of("6"@) == KeyCode::Num6,
        key_code_of("7"@) == KeyCode::Num7,
        key_code_of("8"@) == KeyCode::Num8,
        key_code_of("9"@) == KeyCode::Num9,
        key_code_of("Enter"@) == KeyCode::Enter,
        key_code_of("Escape"@) == KeyCode::Escape,
        key_code_of("Backspace"@) == KeyCode::Backspace,
        key_code_of("Tab"@) == KeyCode::Tab,
        key_code_of(" "@) == KeyCode::Space,
        key_code_of("ArrowLeft"@) == KeyCode::Left,
        key_code_of("ArrowRight"@) == KeyCode::Right,
        key_code_of("ArrowUp"@) == KeyCode::Up,
        key_code_of("ArrowDown"@) == KeyCode::Down,
        key_code_of("Shift"@) == KeyCode::Shift,
        key_code_of("Control"@) == KeyCode::Control,
        key_code_of("Alt"@) == KeyCode::Alt,
        key_code_of("Meta"@) == KeyCode::Meta,
{
    lemma_key_names_spelled();
}

/// Two key names give the same known key only if they are the same name, or
/// the two cases of one letter (which lie 32 code points apart).
pub proof fn law_key_names_told_apart(a: Seq<char>, b: Seq<char>)
    ensures
        key_code_of(a) == key_code_of(b) && key_code_of(a) != KeyCode::Unknown ==> a == b || same_letter(a, b),
{
    lemma_key_names_spelled();
}

/// Whether `a` and `b` are one character each, one the other's letter in the
/// other case.
pub open spec fn same_letter(a: Seq<char>, b: Seq<char>) -> bool {
    &&& a.len() == 1
    &&& b.len() == 1
    &&& (a[0] as int - b[0] as int == 32 || b[0] as int - a[0] as int == 32)
}

} // verus!
