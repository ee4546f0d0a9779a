//! Human-readable rendering of byte counts.

use vstd::prelude::*;
use vstd::string::*;

verus! {

/// Bytes in the unit labelled "KB".
pub const KIB: u64 = 1024;

/// Bytes in the unit labelled "MB".
pub const MIB: u64 = 1048576;

/// Bytes in the unit labelled "GB".
pub const GIB: u64 = 1073741824;

/// The character of a single decimal digit.
pub open spec fn digito(d: nat) -> char {
    if d == 0 {
        '0'
    } else if d == 1 {
        '1'
    } else if d == 2 {
        '2'
    } else if d == 3 {
        '3'
    } else if d == 4 {
        '4'
    } else if d == 5 {
        '5'
    } else if d == 6 {
        '6'
    } else if d == 7 {
        '7'
    } else if d == 8 {
        '8'
    } else {
        '9'
    }
}

/// The decimal numeral of `n`, without leading zeros.
pub open spec fn decimal(n: nat) -> Seq<char>
    decreases n,
{
    if n < 10 {
        seq![digito(n)]
    } else {
        decimal(n / 10).push(digito(n % 10))
    }
}

/// Rounds the fraction `cociente + resto / divisor` to an integer, ties to even.
pub open spec fn redondear(cociente: nat, resto: nat, divisor: nat) -> nat {
    if 2 * resto > divisor || (2 * resto == divisor && cociente % 2 == 1) {
        cociente + 1
    } else {
        cociente
    }
}

/// Hundredths of a unit in `bytes`, rounded to the nearest, ties to even.
pub open spec fn centesimas(bytes: nat, unidad: nat) -> nat
    recommends
        unidad > 0,
{
    redondear((bytes * 100) / unidad, (bytes * 100) % unidad, unidad)
}

/// A count of hundredths written with exactly two decimals.
pub open spec fn con_dos_decimales(c: nat) -> Seq<char> {
    decimal(c / 100) + seq!['.', digito((c % 100) / 10), digito(c % 10)]
}

/// The size in bytes of the unit in which `bytes` is rendered.
pub open spec fn unidad_de(bytes: nat) -> nat {
    if bytes >= GIB {
        GIB as nat
    } else if bytes >= MIB {
        MIB as nat
    } else if bytes >= KIB {
        KIB as nat
    } else {
        1
    }
}

/// The label that follows the number.
pub open spec fn sufijo_de(bytes: nat) -> Seq<char> {
    if bytes >= GIB {
        " GB"@
    } else if bytes >= MIB {
        " MB"@
    } else if bytes >= KIB {
        " KB"@
    } else {
        " bytes"@
    }
}

/// The rendering of a byte count: two decimals of the largest binary unit
/// that the count reaches, or the plain integer below 1024.
pub open spec fn formato_humano(bytes: nat) -> Seq<char> {
    if bytes >= KIB {
        con_dos_decimales(centesimas(bytes, unidad_de(bytes))) + sufijo_de(bytes)
    } else {
        decimal(bytes) + sufijo_de(bytes)
    }
}

fn texto_digito(d: u64) -> (r: &'static str)
    requires
        d < 10,
    ensures
        r@ == seq![digito(d as nat)],
{
    proof {
        reveal_strlit("0");
        reveal_strlit("1");
        reveal_strlit("2");
        reveal_strlit("3");
        reveal_strlit("4");
        reveal_strlit("5");
        reveal_strlit("6");
        reveal_strlit("7");
        reveal_strlit("8");
        reveal_strlit("9");
    }
    let r = match d {
        0 => "0",
        1 => "1",
        2 => "2",
        3 => "3",
        4 => "4",
        5 => "5",
        6 => "6",
        7 => "7",
        8 => "8",
        _ => "9",
    };
    assert(r@ =~= seq![digito(d as nat)]);
    r
}

/// Appends the decimal numeral of `n` to `s`.
pub fn anexar_decimal(s: &mut String, n: u64)
    ensures
        final(s)@ == old(s)@ + decimal(n as nat),
    decreases n,
{
    if n >= 10 {
        anexar_decimal(s, n / 10);
    }
    s.append(texto_digito(n % 10));
    proof {
        if n >= 10 {
            assert(s@ =~= old(s)@ + decimal((n / 10) as nat).push(digito((n % 10) as nat)));
        } else {
            assert(s@ =~= old(s)@ + decimal(n as nat));
        }
    }
}

/// The decimal numeral of `n` as a string.
pub fn texto_decimal(n: u64) -> (r: String)
    ensures
        r@ == decimal(n as nat),
{
    let mut s = String::new();
    anexar_decimal(&mut s, n);
    assert(s@ =~= decimal(n as nat));
    s
}

fn redondear_mitad_par(cociente: u128, resto: u128, divisor: u128) -> (c: u64)
    requires
        cociente < 1844674407370955161,
        resto < divisor,
        divisor <= GIB,
    ensures
        c == redondear(cociente as nat, resto as nat, divisor as nat),
{
    if 2 * resto > divisor || (2 * resto == divisor && cociente % 2 == 1) {
        (cociente + 1) as u64
    } else {
        cociente as u64
    }
}

fn anexar_dos_decimales(s: &mut String, c: u64)
    ensures
        final(s)@ == old(s)@ + con_dos_decimales(c as nat),
{
    anexar_decimal(s, c / 100);
    s.append(".");
    s.append(texto_digito((c % 100) / 10));
    s.append(texto_digito(c % 10));
    proof {
        reveal_strlit(".");
        assert("."@ =~= seq!['.']);
        assert(s@ =~= old(s)@ + con_dos_decimales(c as nat));
    }
}

/// Renders a byte count for display.
///
/// Counts of at least 2^30 are shown in "GB", of at least 2^20 in "MB", of at
/// least 2^10 in "KB", each with two decimals and binary divisors; smaller
/// counts are shown as the integer followed by " bytes".
pub fn bytes_a_formato_humano(bytes: u64) -> (r: String)
    ensures
        r@ == formato_humano(bytes as nat),
{
    let mut s = String::new();
    let n: u128 = (bytes as u128) * 100;
    if bytes >= GIB {
        let c = redondear_mitad_par(n / 1073741824, n % 1073741824, 1073741824);
        anexar_dos_decimales(&mut s, c);
        s.append(" GB");
    } else if bytes >= MIB {
        let c = redondear_mitad_par(n / 1048576, n % 1048576, 1048576);
        anexar_dos_decimales(&mut s, c);
        s.append(" MB");
    } else if bytes >= KIB {
        let c = redondear_mitad_par(n / 1024, n % 1024, 1024);
        anexar_dos_decimales(&mut s, c);
        s.append(" KB");
    } else {
        anexar_decimal(&mut s, bytes);
        s.append(" bytes");
    }
    assert(s@ =~= formato_humano(bytes as nat));
    s
}

/// The number that the rendering shows, counted in hundredths of its unit
/// (for counts below 1024 the unit is the byte and the number is whole).
pub open spec fn valor_mostrado(bytes: nat) -> nat {
    if bytes >= KIB {
        centesimas(bytes, unidad_de(bytes))
    } else {
        bytes * 100
    }
}

/// Rendering is monotonic: a larger count is never shown in a smaller unit,
/// and of two counts shown in the same unit the larger never shows the
/// smaller number.
pub proof fn formato_monotono(a: nat, b: nat)
    requires
        a <= b,
    ensures
        unidad_de(a) <= unidad_de(b),
        unidad_de(a) == unidad_de(b) ==> valor_mostrado(a) <= valor_mostrado(b),
{
    if unidad_de(a) == unidad_de(b) {
        if a >= GIB {
            assert(centesimas(a, 1073741824) <= centesimas(b, 1073741824));
        } else if a >= MIB {
            assert(centesimas(a, 1048576) <= centesimas(b, 1048576));
        } else if a >= KIB {
            assert(centesimas(a, 1024) <= centesimas(b, 1024));
        }
    }
}

/// The thresholds are exact: a count is shown in a unit precisely when it
/// has reached that unit and not the next, and the number shown is at least
/// one whole unit.
pub proof fn umbrales_exactos(b: nat)
    ensures
        sufijo_de(b) == " GB"@ <==> b >= GIB,
        sufijo_de(b) == " MB"@ <==> MIB <= b < GIB,
        sufijo_de(b) == " KB"@ <==> KIB <= b < MIB,
        sufijo_de(b) == " bytes"@ <==> b < KIB,
        b >= KIB ==> valor_mostrado(b) >= 100,
{
    reveal_strlit(" GB");
    reveal_strlit(" MB");
    reveal_strlit(" KB");
    reveal_strlit(" bytes");
    assert(" GB"@[1] == 'G');
    assert(" MB"@[1] == 'M');
    assert(" KB"@[1] == 'K');
    assert(" bytes"@[1] == 'b');
    if b >= 1073741824 {
        assert((b * 100) / 1073741824 >= 100);
    } else if b >= 1048576 {
        assert((b * 100) / 1048576 >= 100);
    } else if b >= 1024 {
        assert((b * 100) / 1024 >= 100);
    }
}

} // verus!
