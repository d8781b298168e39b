use addon_catalog::coerce::coerce_int32;
use addon_catalog::coerce::coerce_or_default_i32;
use addon_catalog::coerce::coerce_or_default_string;
use addon_catalog::coerce::coerce_or_default_string_list;
use addon_catalog::coerce::coerce_uint64;
use addon_catalog::coerce::uint_to_string;
use addon_catalog::error::Error;
use addon_catalog::json::{Json, JsonNum};

fn num(n: JsonNum) -> Json {
    Json::Num(n)
}

fn s(text: &str) -> Json {
    Json::Str(text.to_string())
}

#[test]
fn coerce_int32_agrees_on_number_and_equivalent_string() {
    let cases: [i32; 7] = [0, 1, -1, 12345, -54321, i32::MAX, i32::MIN];
    for v in cases {
        let as_num = if v >= 0 {
            num(JsonNum::UInt(v as u64))
        } else {
            num(JsonNum::NegInt(v as i64))
        };
        let as_str = s(&v.to_string());
        assert_eq!(coerce_int32(&as_num), Ok(v));
        assert_eq!(coerce_int32(&as_str), Ok(v));
    }
}

#[test]
fn coerce_uint64_agrees_on_number_and_equivalent_string() {
    let cases: [u64; 5] = [0, 1, 593294, 1622059572000, u64::MAX];
    for v in cases {
        assert_eq!(coerce_uint64(&num(JsonNum::UInt(v))), Ok(v));
        assert_eq!(coerce_uint64(&s(&v.to_string())), Ok(v));
    }
}

#[test]
fn coerce_int32_clamps_out_of_range_numbers_to_zero() {
    assert_eq!(coerce_int32(&num(JsonNum::UInt(3_000_000_000))), Ok(0));
    assert_eq!(coerce_int32(&num(JsonNum::UInt(2_147_483_648))), Ok(0));
    assert_eq!(coerce_int32(&num(JsonNum::NegInt(-2_147_483_649))), Ok(0));
    assert_eq!(coerce_int32(&num(JsonNum::NegInt(i64::MIN))), Ok(0));
    // The boundaries themselves still pass through.
    assert_eq!(coerce_int32(&num(JsonNum::UInt(2_147_483_647))), Ok(i32::MAX));
    assert_eq!(coerce_int32(&num(JsonNum::NegInt(-2_147_483_648))), Ok(i32::MIN));
}

#[test]
fn coerce_int32_rejects_structurally_wrong_values() {
    assert_eq!(coerce_int32(&Json::Null), Err(Error::Decode));
    assert_eq!(coerce_int32(&Json::Bool(true)), Err(Error::Decode));
    assert_eq!(coerce_int32(&num(JsonNum::Float(3))), Err(Error::Decode));
    assert_eq!(coerce_int32(&Json::Arr(Vec::new())), Err(Error::Decode));
    assert_eq!(coerce_int32(&Json::Obj(Vec::new())), Err(Error::Decode));
}

#[test]
fn coerce_int32_accepts_signs_and_rejects_bad_numerals() {
    assert_eq!(coerce_int32(&s("+42")), Ok(42));
    assert_eq!(coerce_int32(&s("-42")), Ok(-42));
    assert_eq!(coerce_int32(&s("")), Err(Error::Decode));
    assert_eq!(coerce_int32(&s("abc")), Err(Error::Decode));
    assert_eq!(coerce_int32(&s("12x")), Err(Error::Decode));
    assert_eq!(coerce_int32(&s("99999999999")), Err(Error::Decode));
    assert_eq!(coerce_int32(&s("-99999999999")), Err(Error::Decode));
}

#[test]
fn coerce_uint64_rejects_negative_and_non_integral_values() {
    assert_eq!(coerce_uint64(&num(JsonNum::NegInt(-1))), Err(Error::Decode));
    assert_eq!(coerce_uint64(&num(JsonNum::Float(7))), Err(Error::Decode));
    assert_eq!(coerce_uint64(&s("-1")), Err(Error::Decode));
    assert_eq!(coerce_uint64(&s("")), Err(Error::Decode));
    assert_eq!(coerce_uint64(&s("1.5")), Err(Error::Decode));
    assert_eq!(coerce_uint64(&s("18446744073709551616")), Err(Error::Decode));
    assert_eq!(coerce_uint64(&Json::Null), Err(Error::Decode));
}

#[test]
fn uint_to_string_renders_integers_and_rejects_the_rest() {
    assert_eq!(
        uint_to_string(&num(JsonNum::UInt(1622059572000))),
        Ok("1622059572000".to_string())
    );
    assert_eq!(uint_to_string(&num(JsonNum::UInt(0))), Ok("0".to_string()));
    assert_eq!(
        uint_to_string(&num(JsonNum::UInt(u64::MAX))),
        Ok("18446744073709551615".to_string())
    );
    assert_eq!(uint_to_string(&s("7")), Err(Error::Decode));
    assert_eq!(uint_to_string(&num(JsonNum::NegInt(-7))), Err(Error::Decode));
    assert_eq!(uint_to_string(&num(JsonNum::Float(7))), Err(Error::Decode));
    assert_eq!(uint_to_string(&Json::Null), Err(Error::Decode));
}

#[test]
fn coerce_or_default_maps_null_to_each_zero_value() {
    assert_eq!(coerce_or_default_i32(&Json::Null), Ok(0));
    assert_eq!(coerce_or_default_string(&Json::Null), Ok(String::new()));
    assert_eq!(coerce_or_default_string_list(&Json::Null), Ok(Vec::new()));
}

#[test]
fn coerce_or_default_still_decodes_real_values() {
    assert_eq!(coerce_or_default_i32(&num(JsonNum::UInt(7))), Ok(7));
    assert_eq!(coerce_or_default_i32(&num(JsonNum::NegInt(-7))), Ok(-7));
    assert_eq!(coerce_or_default_string(&s("hello")), Ok("hello".to_string()));
    let list = Json::Arr(vec![s("a"), s("b")]);
    assert_eq!(
        coerce_or_default_string_list(&list),
        Ok(vec!["a".to_string(), "b".to_string()])
    );
}

#[test]
fn coerce_or_default_rejects_structurally_wrong_values() {
    // Unlike the tolerant number readers, the plain typed fields accept no
    // stringified numbers and no out-of-range clamping.
    assert_eq!(coerce_or_default_i32(&s("7")), Err(Error::Decode));
    assert_eq!(
        coerce_or_default_i32(&num(JsonNum::UInt(3_000_000_000))),
        Err(Error::Decode)
    );
    assert_eq!(coerce_or_default_string(&num(JsonNum::UInt(7))), Err(Error::Decode));
    assert_eq!(
        coerce_or_default_string_list(&Json::Arr(vec![Json::Null])),
        Err(Error::Decode)
    );
    assert_eq!(coerce_or_default_string_list(&s("a")), Err(Error::Decode));
}
