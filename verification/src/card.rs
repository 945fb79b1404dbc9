//! Card number validation: digit extraction, the Luhn checksum and brand
//! identification from the leading digits.

use vstd::prelude::*;

verus! {

/// The outcome of validating a card number.
#[derive(Debug, Clone)]
pub struct CardValidation {
    pub is_valid: bool,
    pub card_type: String,
    pub message: String,
}

pub open spec fn is_digit_byte(b: u8) -> bool {
    48 <= b <= 57
}

/// The decimal digits contained in a byte text, in order, as values 0 to 9;
/// every other byte is ignored.
pub open spec fn card_digits(s: Seq<u8>) -> Seq<u8>
    decreases s.len(),
{
    if s.len() == 0 {
        Seq::empty()
    } else {
        let rest = card_digits(s.drop_last());
        if is_digit_byte(s.last()) {
            rest.push((s.last() - 48) as u8)
        } else {
            rest
        }
    }
}

/// The Luhn contribution of one digit: doubled digits above 9 have 9
/// subtracted.
pub open spec fn luhn_digit(v: u8, double: bool) -> int {
    if double {
        if 2 * v > 9 {
            2 * v - 9
        } else {
            2 * v
        }
    } else {
        v as int
    }
}

/// The Luhn sum of the digits from position `i` on: every second digit,
/// counted from the rightmost one (which is never doubled), is doubled.
pub open spec fn luhn_tail(d: Seq<u8>, i: int) -> int
    decreases d.len() - i,
{
    if i < 0 || i >= d.len() {
        0
    } else {
        luhn_digit(d[i], (d.len() - 1 - i) % 2 == 1) + luhn_tail(d, i + 1)
    }
}

/// A digit sequence passes the Luhn check when its sum is divisible by ten.
pub open spec fn spec_luhn_valid(d: Seq<u8>) -> bool {
    luhn_tail(d, 0) % 10 == 0
}

/// The brand identified from the leading digits.
pub open spec fn spec_card_type(d: Seq<u8>) -> Seq<char>
    recommends
        d.len() >= 4,
        forall|j: int| 0 <= j < d.len() ==> d[j] < 10,
{
    let first_two = d[0] * 10 + d[1];
    let first_four = d[0] * 1000 + d[1] * 100 + d[2] * 10 + d[3];
    if d[0] == 4 {
        "Visa"@
    } else if (51 <= first_two <= 55) || (2221 <= first_four <= 2720) {
        "Mastercard"@
    } else if first_two == 36 || first_two == 38 || (300 <= first_four <= 305) {
        "Diners Club"@
    } else if first_two == 34 || first_two == 37 {
        "American Express"@
    } else if (506099 <= first_four <= 506198) || (636368 <= first_four <= 636369) || (509000
        <= first_four <= 509999) {
        "Elo"@
    } else if (6011 <= first_four <= 6019) || first_two == 65 {
        "Discover"@
    } else {
        "Desconhecido"@
    }
}

/// A card number is accepted when it carries 13 to 19 digits and they pass
/// the Luhn check.
pub open spec fn spec_card_valid(s: Seq<u8>) -> bool {
    let d = card_digits(s);
    &&& 13 <= d.len() <= 19
    &&& spec_luhn_valid(d)
}

fn extract_digits(card_text: &[u8]) -> (digits: Vec<u8>)
    ensures
        digits@ == card_digits(card_text@),
        forall|j: int| 0 <= j < digits@.len() ==> digits@[j] < 10,
{
    let n = card_text.len();
    let mut digits: Vec<u8> = Vec::new();
    proof {
        assert(card_text@.take(0) =~= Seq::<u8>::empty());
    }
    let mut i: usize = 0;
    while i < n
        invariant
            i <= n,
            n == card_text@.len(),
            digits@ == card_digits(card_text@.take(i as int)),
            forall|j: int| 0 <= j < digits@.len() ==> digits@[j] < 10,
        decreases n - i,
    {
        let b = card_text[i];
        proof {
            assert(card_text@.take(i as int + 1).drop_last() =~= card_text@.take(i as int));
            assert(card_text@.take(i as int + 1).last() == card_text@[i as int]);
        }
        if b >= 48 && b <= 57 {
            digits.push(b - 48);
        }
        i = i + 1;
    }
    proof {
        assert(card_text@.take(n as int) =~= card_text@);
    }
    digits
}

fn luhn_checksum(digits: &Vec<u8>) -> (sum: u32)
    requires
        digits@.len() <= 19,
        forall|j: int| 0 <= j < digits@.len() ==> digits@[j] < 10,
    ensures
        sum as int == luhn_tail(digits@, 0),
{
    let n = digits.len();
    let mut sum: u32 = 0;
    let mut i: usize = n;
    while i > 0
        invariant
            i <= n,
            n == digits@.len(),
            n <= 19,
            forall|j: int| 0 <= j < digits@.len() ==> digits@[j] < 10,
            sum as int == luhn_tail(digits@, i as int),
            sum <= 9 * (n - i),
        decreases i,
    {
        i = i - 1;
        let v = digits[i];
        let double = (n - 1 - i) % 2 == 1;
        let add: u32 = if double {
            let w: u32 = 2 * (v as u32);
            if w > 9 {
                w - 9
            } else {
                w
            }
        } else {
            v as u32
        };
        sum = sum + add;
    }
    sum
}

fn card_type_str(digits: &Vec<u8>) -> (s: &'static str)
    requires
        digits@.len() >= 4,
        forall|j: int| 0 <= j < digits@.len() ==> digits@[j] < 10,
    ensures
        s@ == spec_card_type(digits@),
{
    let first_two: u32 = (digits[0] as u32) * 10 + (digits[1] as u32);
    let first_four: u32 = (digits[0] as u32) * 1000 + (digits[1] as u32) * 100 + (digits[2] as u32)
        * 10 + (digits[3] as u32);
    if digits[0] == 4 {
        "Visa"
    } else if (51 <= first_two && first_two <= 55) || (2221 <= first_four && first_four <= 2720) {
        "Mastercard"
    } else if first_two == 36 || first_two == 38 || (300 <= first_four && first_four <= 305) {
        "Diners Club"
    } else if first_two == 34 || first_two == 37 {
        "American Express"
    } else if (506099 <= first_four && first_four <= 506198) || (636368 <= first_four && first_four
        <= 636369) || (509000 <= first_four && first_four <= 509999) {
        "Elo"
    } else if (6011 <= first_four && first_four <= 6019) || first_two == 65 {
        "Discover"
    } else {
        "Desconhecido"
    }
}

/// Validates a card number given as text: keeps its decimal digits, requires
/// 13 to 19 of them, runs the Luhn check and identifies the brand.
pub fn validate_card_number(card_text: &[u8]) -> (r: CardValidation)
    ensures
        r.is_valid == spec_card_valid(card_text@),
        (!(13 <= card_digits(card_text@).len() <= 19) ==> r.card_type@ == "Desconhecido"@
            && r.message@ == "Comprimento inválido (deve ter entre 13-19 dígitos)"@),
        (13 <= card_digits(card_text@).len() <= 19 ==> r.card_type@ == spec_card_type(
            card_digits(card_text@),
        )),
        (spec_card_valid(card_text@) ==> r.message@ == "Cartão "@ + spec_card_type(
            card_digits(card_text@),
        ) + " válido (Luhn check passed)"@),
        (13 <= card_digits(card_text@).len() <= 19 && !spec_card_valid(card_text@) ==> r.message@
            == "Falha na verificação Luhn - número inválido"@),
{
    let digits = extract_digits(card_text);
    if digits.len() < 13 || digits.len() > 19 {
        return CardValidation {
            is_valid: false,
            card_type: String::from_str("Desconhecido"),
            message: String::from_str("Comprimento inválido (deve ter entre 13-19 dígitos)"),
        };
    }
    let sum = luhn_checksum(&digits);
    let is_valid = sum % 10 == 0;
    let card_type = card_type_str(&digits);
    let message = if is_valid {
        let mut m = String::from_str("Cartão ");
        m.append(card_type);
        m.append(" válido (Luhn check passed)");
        proof {
            assert(m@ =~= "Cartão "@ + spec_card_type(card_digits(card_text@))
                + " válido (Luhn check passed)"@);
        }
        m
    } else {
        String::from_str("Falha na verificação Luhn - número inválido")
    };
    CardValidation { is_valid, card_type: String::from_str(card_type), message }
}

} // verus!
