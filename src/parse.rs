use vstd::prelude::*;
use vstd::string::StringExecFns;
use vstd::string::StrSliceExecFns;

use crate::circle::Circle;

verus! {

/// The number of fields that the text form of a circle holds.
pub const FIELD_COUNT: usize = 3;

/// The message that goes with text that does not hold three fields.
pub const MALFORMED_MESSAGE: &'static str = "Bad circle from string";

/// The pieces of `s` between single space characters, in order.
///
/// Every space ends one field and starts the next, so two adjacent spaces
/// enclose an empty field and a text without spaces is one field.
pub open spec fn fields(s: Seq<char>) -> Seq<Seq<char>>
    decreases s.len(),
{
    if s.len() == 0 {
        seq![Seq::empty()]
    } else {
        let prev = fields(s.drop_last());
        if s.last() == ' ' {
            prev.push(Seq::empty())
        } else {
            prev.update(prev.len() - 1, prev.last().push(s.last()))
        }
    }
}

/// The number of space characters in `s`.
pub open spec fn space_count(s: Seq<char>) -> nat
    decreases s.len(),
{
    if s.len() == 0 {
        0
    } else {
        space_count(s.drop_last()) + if s.last() == ' ' {
            1nat
        } else {
            0nat
        }
    }
}

/// Text splits into one field more than it holds spaces; so it holds the
/// three fields of a circle exactly when it holds two spaces.
pub proof fn lemma_field_count(s: Seq<char>)
    ensures
        fields(s).len() == space_count(s) + 1,
        fields(s).len() == FIELD_COUNT <==> space_count(s) == 2,
    decreases s.len(),
{
    if s.len() > 0 {
        lemma_field_count(s.drop_last());
    }
}

/// Why a circle could not be read from text: the text does not hold
/// `x y radius`, or one of the three does not read as a number, with the
/// number reader's own error.
#[derive(Clone, Copy, Debug, PartialEq)]
pub enum ParseCircleError<E> {
    Malformed,
    Number(E),
}

/// Splits `s` at every space character.
pub fn split_fields(s: &str) -> (r: Vec<String>)
    ensures
        r@.len() == fields(s@).len(),
        forall|j: int| 0 <= j < r@.len() ==> #[trigger] r@[j]@ == fields(s@)[j],
{
    let n = s.unicode_len();
    let mut parts: Vec<String> = Vec::new();
    let mut start: usize = 0;
    let mut i: usize = 0;
    assert(s@.subrange(0, 0) =~= Seq::<char>::empty());
    while i < n
        invariant
            n == s@.len(),
            start <= i <= n,
            fields(s@.subrange(0, i as int)).len() == parts@.len() + 1,
            forall|j: int|
                0 <= j < parts@.len() ==> #[trigger] parts@[j]@ == fields(
                    s@.subrange(0, i as int),
                )[j],
            fields(s@.subrange(0, i as int)).last() == s@.subrange(start as int, i as int),
        decreases n - i,
    {
        let ghost before = s@.subrange(0, i as int);
        let ghost after = s@.subrange(0, i + 1);
        assert(after.drop_last() =~= before);
        if s.get_char(i) == ' ' {
            let piece = s.substring_char(start, i);
            parts.push(String::from_str(piece));
            start = i + 1;
            assert(s@.subrange(start as int, i + 1) =~= Seq::<char>::empty());
        } else {
            assert(s@.subrange(start as int, i + 1) =~= s@.subrange(start as int, i as int).push(
                s@[i as int],
            ));
        }
        i = i + 1;
    }
    assert(s@.subrange(0, n as int) =~= s@);
    let last = s.substring_char(start, n);
    parts.push(String::from_str(last));
    parts
}

/// Splits the text form `x y radius` of a circle into its three fields.
///
/// Text that does not split into exactly three fields at single spaces is
/// malformed; no field is checked further here.
pub fn circle_fields<E>(s: &str) -> (r: Result<(String, String, String), ParseCircleError<E>>)
    ensures
        r is Ok <==> fields(s@).len() == FIELD_COUNT,
        r matches Ok((x, y, radius)) ==> x@ == fields(s@)[0] && y@ == fields(s@)[1]
            && radius@ == fields(s@)[2],
        r is Err ==> r == Err::<(String, String, String), _>(ParseCircleError::<E>::Malformed),
{
    let parts = split_fields(s);
    if parts.len() != FIELD_COUNT {
        return Err(ParseCircleError::Malformed);
    }
    let x = parts[0].clone();
    let y = parts[1].clone();
    let radius = parts[2].clone();
    Ok((x, y, radius))
}

/// Builds a circle from what the number reader gave for `x`, `y` and
/// `radius`, in that order. The first error met is the one reported.
pub fn from_numbers<T, E>(x: Result<T, E>, y: Result<T, E>, radius: Result<T, E>) -> (r: Result<
    Circle<T>,
    ParseCircleError<E>,
>)
    ensures
        r == match (x, y, radius) {
            (Ok(x), Ok(y), Ok(radius)) => Ok(Circle { x, y, radius }),
            (Err(e), _, _) => Err(ParseCircleError::Number(e)),
            (Ok(_), Err(e), _) => Err(ParseCircleError::Number(e)),
            (Ok(_), Ok(_), Err(e)) => Err(ParseCircleError::Number(e)),
        },
{
    let x = match x {
        Ok(v) => v,
        Err(e) => return Err(ParseCircleError::Number(e)),
    };
    let y = match y {
        Ok(v) => v,
        Err(e) => return Err(ParseCircleError::Number(e)),
    };
    let radius = match radius {
        Ok(v) => v,
        Err(e) => return Err(ParseCircleError::Number(e)),
    };
    Ok(Circle { x, y, radius })
}

} // verus!
