//! Algebraic naming of squares and moves, as the rule engine expects them.
//!
//! A square (rank, file) with both indices in [0,8) is written as a file
//! letter `a`..`h` for file 0..8 followed by a rank digit `8 - rank`; a move
//! is the origin name, a space, and the destination name (so (6,4) to (4,4)
//! becomes "e2 e4").

use vstd::prelude::*;

verus! {

/// The letter naming a file index.
pub open spec fn file_char(file: int) -> char {
    if file == 0 {
        'a'
    } else if file == 1 {
        'b'
    } else if file == 2 {
        'c'
    } else if file == 3 {
        'd'
    } else if file == 4 {
        'e'
    } else if file == 5 {
        'f'
    } else if file == 6 {
        'g'
    } else {
        'h'
    }
}

/// The digit naming a rank index: rank 0 is the engine's rank 8, rank 7 its
/// rank 1.
pub open spec fn rank_char(rank: int) -> char {
    if rank == 0 {
        '8'
    } else if rank == 1 {
        '7'
    } else if rank == 2 {
        '6'
    } else if rank == 3 {
        '5'
    } else if rank == 4 {
        '4'
    } else if rank == 5 {
        '3'
    } else if rank == 6 {
        '2'
    } else {
        '1'
    }
}

/// The two-character name of a (rank, file) square.
pub open spec fn square_name(square: (usize, usize)) -> Seq<char> {
    seq![file_char(square.1 as int), rank_char(square.0 as int)]
}

/// The engine's spelling of a move: origin name, space, destination name.
pub open spec fn move_str(from: (usize, usize), to: (usize, usize)) -> Seq<char> {
    square_name(from) + seq![' '] + square_name(to)
}

/// The one-letter string naming a file index.
fn file_letter(file: usize) -> (r: &'static str)
    requires
        file < 8,
    ensures
        r@ == seq![file_char(file as int)],
{
    proof {
        reveal_strlit("a");
        reveal_strlit("b");
        reveal_strlit("c");
        reveal_strlit("d");
        reveal_strlit("e");
        reveal_strlit("f");
        reveal_strlit("g");
        reveal_strlit("h");
    }
    let r: &'static str = if file == 0 {
        "a"
    } else if file == 1 {
        "b"
    } else if file == 2 {
        "c"
    } else if file == 3 {
        "d"
    } else if file == 4 {
        "e"
    } else if file == 5 {
        "f"
    } else if file == 6 {
        "g"
    } else {
        "h"
    };
    proof {
        assert(r@ =~= seq![file_char(file as int)]);
    }
    r
}

/// The one-digit string naming a rank index.
fn rank_digit(rank: usize) -> (r: &'static str)
    requires
        rank < 8,
    ensures
        r@ == seq![rank_char(rank as int)],
{
    proof {
        reveal_strlit("8");
        reveal_strlit("7");
        reveal_strlit("6");
        reveal_strlit("5");
        reveal_strlit("4");
        reveal_strlit("3");
        reveal_strlit("2");
        reveal_strlit("1");
    }
    let r: &'static str = if rank == 0 {
        "8"
    } else if rank == 1 {
        "7"
    } else if rank == 2 {
        "6"
    } else if rank == 3 {
        "5"
    } else if rank == 4 {
        "4"
    } else if rank == 5 {
        "3"
    } else if rank == 6 {
        "2"
    } else {
        "1"
    };
    proof {
        assert(r@ =~= seq![rank_char(rank as int)]);
    }
    r
}

/// Writes a move in the engine's algebraic form, e.g. "e2 e4".
pub fn move_to_string(from: (usize, usize), to: (usize, usize)) -> (r: String)
    requires
        from.0 < 8,
        from.1 < 8,
        to.0 < 8,
        to.1 < 8,
    ensures
        r@ == move_str(from, to),
{
    let mut s = String::from_str(file_letter(from.1));
    s.append(rank_digit(from.0));
    s.append(" ");
    s.append(file_letter(to.1));
    s.append(rank_digit(to.0));
    proof {
        reveal_strlit(" ");
        assert(s@ =~= move_str(from, to));
    }
    s
}

} // verus!
