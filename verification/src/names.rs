//! Names for definitions that have none of their own.

use vstd::prelude::*;

use vstd::string::StringExecFns;

use crate::ids::{FnDefId, OpaqueTyId};

verus! {

/// The decimal digit `d`.
pub open spec fn digit(d: nat) -> char {
    if d == 0 {
        '0'
    } else if d == 1 {
        '1'
    } else if d == 2 {
        '2'
    } else if d == 3 {
        '3'
    } else if d == 4 {
        '4'
    } else if d == 5 {
        '5'
    } else if d == 6 {
        '6'
    } else if d == 7 {
        '7'
    } else if d == 8 {
        '8'
    } else {
        '9'
    }
}

/// `n` in decimal digits, without leading zeros.
pub open spec fn decimal(n: nat) -> Seq<char>
    decreases n,
{
    if n < 10 {
        seq![digit(n)]
    } else {
        decimal(n / 10).push(digit(n % 10))
    }
}

fn digit_str(d: u32) -> (text: &'static str)
    requires
        d < 10,
    ensures
        text@ == seq![digit(d as nat)],
{
    proof {
        reveal_strlit("0");
        reveal_strlit("1");
        reveal_strlit("2");
        reveal_strlit("3");
        reveal_strlit("4");
        reveal_strlit("5");
        reveal_strlit("6");
        reveal_strlit("7");
        reveal_strlit("8");
        reveal_strlit("9");
    }
    match d {
        0 => "0",
        1 => "1",
        2 => "2",
        3 => "3",
        4 => "4",
        5 => "5",
        6 => "6",
        7 => "7",
        8 => "8",
        _ => "9",
    }
}

fn push_decimal(text: &mut String, n: u32)
    ensures
        final(text)@ == old(text)@ + decimal(n as nat),
    decreases n,
{
    if n >= 10 {
        push_decimal(text, n / 10);
    }
    text.append(digit_str(n % 10));
}

/// The name of an opaque type.
pub open spec fn opaque_name(id: OpaqueTyId) -> Seq<char> {
    "Opaque_"@ + decimal(id.0.0 as nat)
}

/// The name of a function.
pub open spec fn fn_name(id: FnDefId) -> Seq<char> {
    "fn_"@ + decimal(id.0.0 as nat)
}

pub fn opaque_type_name(id: OpaqueTyId) -> (name: String)
    ensures
        name@ == opaque_name(id),
{
    let mut name: String = "Opaque_".to_owned();
    push_decimal(&mut name, id.0.0);
    name
}

pub fn fn_def_name(id: FnDefId) -> (name: String)
    ensures
        name@ == fn_name(id),
{
    let mut name: String = "fn_".to_owned();
    push_decimal(&mut name, id.0.0);
    name
}

proof fn decimal_is_injective(a: nat, b: nat)
    ensures
        decimal(a) == decimal(b) ==> a == b,
    decreases a,
{
    if decimal(a) == decimal(b) {
        decimal_len(a);
        decimal_len(b);
        assert(decimal(a).last() == digit(a % 10));
        assert(decimal(b).last() == digit(b % 10));
        if a >= 10 {
            assert(decimal(a).drop_last() == decimal(a / 10));
            assert(decimal(b).drop_last() == decimal(b / 10));
            decimal_is_injective(a / 10, b / 10);
        }
    }
}

proof fn decimal_len(n: nat)
    ensures
        decimal(n).len() >= 1,
        n >= 10 ==> decimal(n).len() >= 2,
    decreases n,
{
    if n >= 10 {
        decimal_len(n / 10);
    }
}

/// Two opaque types have the same name only if they are the same.
pub proof fn opaque_names_are_distinct(a: OpaqueTyId, b: OpaqueTyId)
    ensures
        opaque_name(a) == opaque_name(b) ==> a == b,
{
    let prefix = "Opaque_"@;
    if opaque_name(a) == opaque_name(b) {
        assert(opaque_name(a).skip(prefix.len() as int) == decimal(a.0.0 as nat));
        assert(opaque_name(b).skip(prefix.len() as int) == decimal(b.0.0 as nat));
        decimal_is_injective(a.0.0 as nat, b.0.0 as nat);
    }
}

/// Two functions have the same name only if they are the same.
pub proof fn fn_names_are_distinct(a: FnDefId, b: FnDefId)
    ensures
        fn_name(a) == fn_name(b) ==> a == b,
{
    let prefix = "fn_"@;
    if fn_name(a) == fn_name(b) {
        assert(fn_name(a).skip(prefix.len() as int) == decimal(a.0.0 as nat));
        assert(fn_name(b).skip(prefix.len() as int) == decimal(b.0.0 as nat));
        decimal_is_injective(a.0.0 as nat, b.0.0 as nat);
    }
}

/// The number that a text of decimal digits says.
pub open spec fn number_of(text: Seq<char>) -> int
    decreases text.len(),
{
    if text.len() == 0 {
        0
    } else {
        10 * number_of(text.drop_last()) + (text.last() as int - '0' as int)
    }
}

proof fn decimal_is_read_back(n: nat)
    ensures
        number_of(decimal(n)) == n,
        forall|i: int|
            0 <= i < decimal(n).len() ==> '0' as int <= #[trigger] decimal(n)[i] as int <= '9' as int,
        decimal(n).len() >= 1,
        n > 0 ==> decimal(n)[0] != '0',
        n == 0 ==> decimal(n).len() == 1,
    decreases n,
{
    assert(digit(n % 10) as int == '0' as int + n % 10);
    if n < 10 {
        assert(decimal(n).drop_last() =~= Seq::<char>::empty());
        assert(number_of(decimal(n).drop_last()) == 0);
    } else {
        decimal_is_read_back(n / 10);
        assert(decimal(n).drop_last() =~= decimal(n / 10));
        assert forall|i: int| 0 <= i < decimal(n).len() implies '0' as int <= #[trigger] decimal(
            n,
        )[i] as int <= '9' as int by {
            if i < decimal(n / 10).len() {
                assert(decimal(n)[i] == decimal(n / 10)[i]);
            }
        }
    }
}

/// The name of an opaque type is `Opaque_` and then its number, in decimal digits without leading
/// zeros: read as a number, the digits give it back.
pub proof fn opaque_name_has_its_number(id: OpaqueTyId)
    ensures
        ({
            let prefix = "Opaque_"@;
            let digits = opaque_name(id).skip(prefix.len() as int);
            &&& opaque_name(id).take(prefix.len() as int) == prefix
            &&& opaque_name(id).len() == prefix.len() + digits.len()
            &&& digits.len() >= 1
            &&& number_of(digits) == id.0.0
            &&& digits.len() > 1 ==> digits[0] != '0'
            &&& forall|i: int|
                0 <= i < digits.len() ==> '0' as int <= #[trigger] digits[i] as int <= '9' as int
        }),
{
    let prefix = "Opaque_"@;
    decimal_is_read_back(id.0.0 as nat);
    assert(opaque_name(id).skip(prefix.len() as int) =~= decimal(id.0.0 as nat));
    assert(opaque_name(id).take(prefix.len() as int) =~= prefix);
}

/// The name of a function is `fn_` and then its number, in decimal digits without leading zeros:
/// read as a number, the digits give it back.
pub proof fn fn_name_has_its_number(id: FnDefId)
    ensures
        ({
            let prefix = "fn_"@;
            let digits = fn_name(id).skip(prefix.len() as int);
            &&& fn_name(id).take(prefix.len() as int) == prefix
            &&& fn_name(id).len() == prefix.len() + digits.len()
            &&& digits.len() >= 1
            &&& number_of(digits) == id.0.0
            &&& digits.len() > 1 ==> digits[0] != '0'
            &&& forall|i: int|
                0 <= i < digits.len() ==> '0' as int <= #[trigger] digits[i] as int <= '9' as int
        }),
{
    let prefix = "fn_"@;
    decimal_is_read_back(id.0.0 as nat);
    assert(fn_name(id).skip(prefix.len() as int) =~= decimal(id.0.0 as nat));
    assert(fn_name(id).take(prefix.len() as int) =~= prefix);
}

} // verus!
