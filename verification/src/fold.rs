//! Lexing and run-length folding of source text into instruction sequences.
//!
//! The eight command characters are kept, every other character is ignored.
//! Consecutive cell deltas and consecutive pointer moves are merged by summing
//! with wrapping arithmetic (8-bit for cells, 32-bit for the pointer), and a
//! merged delta of zero is removed outright, so the folded sequence never
//! holds a no-op. Bracket balance is checked over the whole source.

use vstd::prelude::*;

verus! {

/// One folded instruction of the source program.
#[derive(Debug, Clone, Copy, PartialEq, Eq, Structural)]
pub enum BfInstr {
    /// Aggregate cell delta at the current pointer, 8-bit wrapping; never 0.
    Add(i8),
    /// Aggregate pointer displacement, 32-bit wrapping; never 0.
    Right(i32),
    /// Write the current cell's byte.
    Output,
    /// Read one byte into the current cell.
    Input,
    /// Open a loop; paired with a later `EndLoop` at the same depth.
    StartLoop,
    /// Close the nearest open loop.
    EndLoop,
}

/// The error a compilation can report: the source's brackets do not balance.
#[derive(Debug, Clone, Copy, PartialEq, Eq, Structural)]
pub enum BfError {
    BracketMismatch,
}

impl BfError {
    /// A short description of the error, as a caller would print it.
    pub fn message(&self) -> (r: &'static str)
        ensures
            r@ == "bracket mismatch"@,
    {
        "bracket mismatch"
    }
}

/// Whether a character is one of the eight command characters.
pub open spec fn is_command(c: char) -> bool {
    c == '+' || c == '-' || c == '<' || c == '>' || c == '.' || c == ',' || c == '[' || c == ']'
}

/// Whether a character is one of the eight command characters.
pub fn is_valid_instr(c: &char) -> (r: bool)
    ensures
        r == is_command(*c),
{
    matches!(*c, '+' | '-' | '<' | '>' | '.' | ',' | '[' | ']')
}

/// Append a cell delta of `d` to an already folded sequence: merge it into a
/// trailing `Add` with 8-bit wrapping, and drop the result if it cancels to 0.
pub open spec fn fold_add(acc: Seq<BfInstr>, d: i8) -> Seq<BfInstr> {
    if acc.len() > 0 && acc.last() is Add {
        let y = vstd::wrapping::i8_specs::wrapping_add(acc.last()->Add_0, d);
        if y == 0 {
            acc.drop_last()
        } else {
            acc.drop_last().push(BfInstr::Add(y))
        }
    } else {
        acc.push(BfInstr::Add(d))
    }
}

/// Append a pointer delta of `d`: merge it into a trailing `Right` with 32-bit
/// wrapping, and drop the result if it cancels to 0.
pub open spec fn fold_right(acc: Seq<BfInstr>, d: i32) -> Seq<BfInstr> {
    if acc.len() > 0 && acc.last() is Right {
        let y = vstd::wrapping::i32_specs::wrapping_add(acc.last()->Right_0, d);
        if y == 0 {
            acc.drop_last()
        } else {
            acc.drop_last().push(BfInstr::Right(y))
        }
    } else {
        acc.push(BfInstr::Right(d))
    }
}

/// Process one source character against an already folded sequence.
pub open spec fn fold_one(acc: Seq<BfInstr>, c: char) -> Seq<BfInstr> {
    if c == '+' {
        fold_add(acc, 1)
    } else if c == '-' {
        fold_add(acc, (-1) as i8)
    } else if c == '>' {
        fold_right(acc, 1)
    } else if c == '<' {
        fold_right(acc, (-1) as i32)
    } else if c == '.' {
        acc.push(BfInstr::Output)
    } else if c == ',' {
        acc.push(BfInstr::Input)
    } else if c == '[' {
        acc.push(BfInstr::StartLoop)
    } else if c == ']' {
        acc.push(BfInstr::EndLoop)
    } else {
        acc
    }
}

/// The folded instruction sequence of a whole source text.
pub open spec fn fold(s: Seq<char>) -> Seq<BfInstr>
    decreases s.len(),
{
    if s.len() == 0 {
        Seq::empty()
    } else {
        fold_one(fold(s.drop_last()), s.last())
    }
}

/// The contribution of one character to the bracket-depth counter.
pub open spec fn char_balance(c: char) -> int {
    if c == '[' {
        1
    } else if c == ']' {
        -1
    } else {
        0
    }
}

/// The bracket-depth counter after scanning a whole source text.
pub open spec fn balance(s: Seq<char>) -> int
    decreases s.len(),
{
    if s.len() == 0 {
        0
    } else {
        balance(s.drop_last()) + char_balance(s.last())
    }
}

proof fn lemma_fold_step(s: Seq<char>, i: int)
    requires
        0 <= i < s.len(),
    ensures
        fold(s.take(i + 1)) == fold_one(fold(s.take(i)), s[i]),
        balance(s.take(i + 1)) == balance(s.take(i)) + char_balance(s[i]),
{
    assert(s.take(i + 1).drop_last() =~= s.take(i));
    assert(s.take(i + 1).last() == s[i]);
}

/// The number of loop-start markers in an instruction sequence.
pub open spec fn count_starts(q: Seq<BfInstr>) -> int
    decreases q.len(),
{
    if q.len() == 0 {
        0
    } else {
        count_starts(q.drop_last()) + if q.last() is StartLoop {
            1int
        } else {
            0int
        }
    }
}

/// The number of loop-end markers in an instruction sequence.
pub open spec fn count_ends(q: Seq<BfInstr>) -> int
    decreases q.len(),
{
    if q.len() == 0 {
        0
    } else {
        count_ends(q.drop_last()) + if q.last() is EndLoop {
            1int
        } else {
            0int
        }
    }
}

/// The number of occurrences of a character in a source text.
pub open spec fn count_char(s: Seq<char>, c: char) -> int
    decreases s.len(),
{
    if s.len() == 0 {
        0
    } else {
        count_char(s.drop_last(), c) + if s.last() == c {
            1int
        } else {
            0int
        }
    }
}

proof fn lemma_counts_push(q: Seq<BfInstr>, x: BfInstr)
    ensures
        count_starts(q.push(x)) == count_starts(q) + if x is StartLoop {
            1int
        } else {
            0int
        },
        count_ends(q.push(x)) == count_ends(q) + if x is EndLoop {
            1int
        } else {
            0int
        },
{
    assert(q.push(x).drop_last() =~= q);
    assert(q.push(x).last() == x);
}

proof fn lemma_counts_fold_one(acc: Seq<BfInstr>, c: char)
    ensures
        count_starts(fold_one(acc, c)) == count_starts(acc) + if c == '[' {
            1int
        } else {
            0int
        },
        count_ends(fold_one(acc, c)) == count_ends(acc) + if c == ']' {
            1int
        } else {
            0int
        },
{
    if c == '+' || c == '-' {
        let d: i8 = if c == '+' {
            1
        } else {
            (-1) as i8
        };
        if acc.len() > 0 && acc.last() is Add {
            let y = vstd::wrapping::i8_specs::wrapping_add(acc.last()->Add_0, d);
            if y != 0 {
                lemma_counts_push(acc.drop_last(), BfInstr::Add(y));
            }
        } else {
            lemma_counts_push(acc, BfInstr::Add(d));
        }
    } else if c == '>' || c == '<' {
        let d: i32 = if c == '>' {
            1
        } else {
            (-1) as i32
        };
        if acc.len() > 0 && acc.last() is Right {
            let y = vstd::wrapping::i32_specs::wrapping_add(acc.last()->Right_0, d);
            if y != 0 {
                lemma_counts_push(acc.drop_last(), BfInstr::Right(y));
            }
        } else {
            lemma_counts_push(acc, BfInstr::Right(d));
        }
    } else if c == '.' {
        lemma_counts_push(acc, BfInstr::Output);
    } else if c == ',' {
        lemma_counts_push(acc, BfInstr::Input);
    } else if c == '[' {
        lemma_counts_push(acc, BfInstr::StartLoop);
    } else if c == ']' {
        lemma_counts_push(acc, BfInstr::EndLoop);
    }
}

/// A source with no command characters folds to the empty sequence: every
/// other character is ignored outright.
pub proof fn lemma_fold_ignores_noncommands(s: Seq<char>)
    requires
        forall|i: int| 0 <= i < s.len() ==> !is_command(#[trigger] s[i]),
    ensures
        fold(s).len() == 0,
    decreases s.len(),
{
    if s.len() > 0 {
        assert(forall|i: int|
            0 <= i < s.drop_last().len() ==> !is_command(#[trigger] s.drop_last()[i]));
        lemma_fold_ignores_noncommands(s.drop_last());
        assert(!is_command(s.last()));
    }
}

/// The folded sequence holds one loop-start marker per '[' character and one
/// loop-end marker per ']' character; the bracket-depth counter over the
/// whole source is their difference. So a balanced source folds to equally
/// many loop starts and loop ends, and a source whose raw bracket counts
/// differ has nonzero balance, which parsing reports as a mismatch.
pub proof fn lemma_loop_markers(s: Seq<char>)
    ensures
        count_starts(fold(s)) == count_char(s, '['),
        count_ends(fold(s)) == count_char(s, ']'),
        balance(s) == count_char(s, '[') - count_char(s, ']'),
        balance(s) == 0 ==> count_starts(fold(s)) == count_ends(fold(s)),
    decreases s.len(),
{
    if s.len() > 0 {
        lemma_loop_markers(s.drop_last());
        lemma_counts_fold_one(fold(s.drop_last()), s.last());
    }
}

/// A folded sequence is irreducible: it holds no zero delta, and no two
/// adjacent instructions are both cell deltas or both pointer moves, so
/// running the fold over it has nothing left to merge or remove.
pub open spec fn well_folded(q: Seq<BfInstr>) -> bool {
    &&& forall|i: int|
        0 <= i < q.len() ==> ((#[trigger] q[i]) matches BfInstr::Add(x) ==> x != 0)
    &&& forall|i: int|
        0 <= i < q.len() ==> ((#[trigger] q[i]) matches BfInstr::Right(x) ==> x != 0)
    &&& forall|i: int| 0 < i < q.len() ==> !((#[trigger] q[i]) is Add && q[i - 1] is Add)
    &&& forall|i: int| 0 < i < q.len() ==> !((#[trigger] q[i]) is Right && q[i - 1] is Right)
}

proof fn lemma_fold_one_well(acc: Seq<BfInstr>, c: char)
    requires
        well_folded(acc),
    ensures
        well_folded(fold_one(acc, c)),
{
    let q = fold_one(acc, c);
    if c == '+' || c == '-' {
        if acc.len() > 0 && acc.last() is Add {
            assert(acc.len() >= 2 ==> !(acc[acc.len() - 2] is Add));
            assert(forall|i: int|
                0 <= i < acc.len() - 1 ==> acc.drop_last()[i] == #[trigger] acc[i]);
        } else {
            assert(forall|i: int| 0 <= i < acc.len() ==> q[i] == #[trigger] acc[i]);
        }
    } else if c == '>' || c == '<' {
        if acc.len() > 0 && acc.last() is Right {
            assert(acc.len() >= 2 ==> !(acc[acc.len() - 2] is Right));
            assert(forall|i: int|
                0 <= i < acc.len() - 1 ==> acc.drop_last()[i] == #[trigger] acc[i]);
        } else {
            assert(forall|i: int| 0 <= i < acc.len() ==> q[i] == #[trigger] acc[i]);
        }
    } else {
        assert(forall|i: int| 0 <= i < acc.len() ==> q[i] == #[trigger] acc[i]);
    }
}

/// Folding is exhaustive: the folded form of any source is irreducible, so
/// folding it again would change nothing.
pub proof fn lemma_fold_well_folded(s: Seq<char>)
    ensures
        well_folded(fold(s)),
    decreases s.len(),
{
    if s.len() == 0 {
    } else {
        lemma_fold_well_folded(s.drop_last());
        lemma_fold_one_well(fold(s.drop_last()), s.last());
    }
}

/// A source that is a run of one repeated character.
pub open spec fn run_of(c: char, n: nat) -> Seq<char> {
    Seq::new(n, |i: int| c)
}

/// The signed byte standing for a cell-delta run of length `m` modulo 256.
pub open spec fn add_delta(m: int) -> i8 {
    if m <= 127 {
        m as i8
    } else {
        (m - 256) as i8
    }
}

/// The signed word standing for a pointer run of length `m` modulo 2^32.
pub open spec fn right_delta(m: int) -> i32 {
    if m <= 0x7fff_ffff {
        m as i32
    } else {
        (m - 0x1_0000_0000) as i32
    }
}

/// A run of `n` '+' characters folds to a single cell delta of `n` modulo
/// 256, and to nothing at all when 256 divides `n`: the wrapped delta of a
/// full cycle is zero and a zero delta is never materialized.
pub proof fn lemma_fold_plus_run(n: nat)
    ensures
        fold(run_of('+', n)) == if n % 256 == 0 {
            Seq::<BfInstr>::empty()
        } else {
            seq![BfInstr::Add(add_delta(n as int % 256))]
        },
    decreases n,
{
    if n == 0 {
        assert(run_of('+', 0) =~= Seq::<char>::empty());
    } else {
        let m = (n - 1) as nat;
        lemma_fold_plus_run(m);
        assert(run_of('+', n).drop_last() =~= run_of('+', m));
        assert(run_of('+', n).last() == '+');
        assert(n as int % 256 == if m as int % 256 == 255 {
            0int
        } else {
            m as int % 256 + 1
        });
        let prev = fold(run_of('+', m));
        if m % 256 == 0 {
            assert(fold_one(prev, '+') =~= seq![BfInstr::Add(1)]);
        } else {
            assert(prev == seq![BfInstr::Add(add_delta(m as int % 256))]);
            assert(prev.last() is Add);
            if m % 256 == 255 {
                assert(fold_one(prev, '+') =~= Seq::<BfInstr>::empty());
            } else {
                assert(fold_one(prev, '+') =~= seq![BfInstr::Add(add_delta(n as int % 256))]);
            }
        }
    }
}

/// A run of `n` '>' characters folds to a single pointer move of `n` modulo
/// 2^32, and to nothing at all when 2^32 divides `n`: pointer deltas wrap at
/// the 32-bit boundary, where a full cycle cancels to zero.
pub proof fn lemma_fold_right_run(n: nat)
    ensures
        fold(run_of('>', n)) == if n % 0x1_0000_0000 == 0 {
            Seq::<BfInstr>::empty()
        } else {
            seq![BfInstr::Right(right_delta(n as int % 0x1_0000_0000))]
        },
    decreases n,
{
    if n == 0 {
        assert(run_of('>', 0) =~= Seq::<char>::empty());
    } else {
        let m = (n - 1) as nat;
        lemma_fold_right_run(m);
        assert(run_of('>', n).drop_last() =~= run_of('>', m));
        assert(run_of('>', n).last() == '>');
        assert(n as int % 0x1_0000_0000 == if m as int % 0x1_0000_0000 == 0xffff_ffff {
            0int
        } else {
            m as int % 0x1_0000_0000 + 1
        });
        let prev = fold(run_of('>', m));
        if m % 0x1_0000_0000 == 0 {
            assert(fold_one(prev, '>') =~= seq![BfInstr::Right(1)]);
        } else {
            assert(prev == seq![BfInstr::Right(right_delta(m as int % 0x1_0000_0000))]);
            assert(prev.last() is Right);
            if m % 0x1_0000_0000 == 0xffff_ffff {
                assert(fold_one(prev, '>') =~= Seq::<BfInstr>::empty());
            } else {
                assert(fold_one(prev, '>') =~= seq![
                    BfInstr::Right(right_delta(n as int % 0x1_0000_0000)),
                ]);
            }
        }
    }
}

/// A full wrapping cycle of either delta kind folds to nothing: 256
/// consecutive '+' commands, or 2^32 consecutive '>' commands, leave the
/// folded sequence empty.
pub proof fn lemma_wrapping_cancellation()
    ensures
        fold(run_of('+', 256)).len() == 0,
        fold(run_of('>', 0x1_0000_0000)).len() == 0,
{
    lemma_fold_plus_run(256);
    lemma_fold_right_run(0x1_0000_0000);
}

/// A parsed program: the folded instruction sequence of its source.
#[derive(Debug)]
pub struct Bf(pub Vec<BfInstr>);

impl View for Bf {
    type V = Seq<BfInstr>;

    open spec fn view(&self) -> Seq<BfInstr> {
        self.0@
    }
}

impl Bf {
    /// Scan the source left to right, keep only command characters, fold runs
    /// of cell deltas and pointer moves, and check that brackets balance.
    pub fn parse(raw: &str) -> (r: Result<Self, BfError>)
        ensures
            match r {
                Ok(bf) => balance(raw@) == 0 && bf@ == fold(raw@),
                Err(e) => e == BfError::BracketMismatch && balance(raw@) != 0,
            },
    {
        let n = raw.unicode_len();
        let mut ast: Vec<BfInstr> = Vec::new();
        let mut brackets: i128 = 0;
        let mut i: usize = 0;
        while i < n
            invariant
                n == raw@.len(),
                i <= n,
                ast@ == fold(raw@.take(i as int)),
                brackets == balance(raw@.take(i as int)),
                -(i as int) <= brackets <= i as int,
            decreases n - i,
        {
            let c = raw.get_char(i);
            proof {
                lemma_fold_step(raw@, i as int);
            }
            if c == '+' || c == '-' {
                let d: i8 = if c == '+' { 1 } else { -1 };
                let mut merged = false;
                if ast.len() > 0 {
                    if let BfInstr::Add(x) = ast[ast.len() - 1] {
                        let y = x.wrapping_add(d);
                        let _ = ast.pop();
                        if y != 0 {
                            ast.push(BfInstr::Add(y));
                        }
                        merged = true;
                    }
                }
                if !merged {
                    ast.push(BfInstr::Add(d));
                }
            } else if c == '>' || c == '<' {
                let d: i32 = if c == '>' { 1 } else { -1 };
                let mut merged = false;
                if ast.len() > 0 {
                    if let BfInstr::Right(x) = ast[ast.len() - 1] {
                        let y = x.wrapping_add(d);
                        let _ = ast.pop();
                        if y != 0 {
                            ast.push(BfInstr::Right(y));
                        }
                        merged = true;
                    }
                }
                if !merged {
                    ast.push(BfInstr::Right(d));
                }
            } else if c == '.' {
                ast.push(BfInstr::Output);
            } else if c == ',' {
                ast.push(BfInstr::Input);
            } else if c == '[' {
                brackets = brackets + 1;
                ast.push(BfInstr::StartLoop);
            } else if c == ']' {
                brackets = brackets - 1;
                ast.push(BfInstr::EndLoop);
            }
            i = i + 1;
        }
        proof {
            assert(raw@.take(n as int) =~= raw@);
        }
        if brackets != 0 {
            return Err(BfError::BracketMismatch);
        }
        Ok(Bf(ast))
    }
}

} // verus!
