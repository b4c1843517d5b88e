use humanize::numbers::HumanizeNumbers;

#[test]
fn test_ordinals() {
    assert_eq!(101.ord(), "101st");
    assert_eq!(2.ord(), "2nd");
    assert_eq!(10093.ord(), "10093rd");
    assert_eq!((-159652).ord(), "-159652nd");
    assert_eq!(0.ord(), "0th");
}

#[test]
fn test_int_separators() {
    assert_eq!(0.intcomma(), "0");
    assert_eq!(12.intcomma(), "12");
    assert_eq!(123.intcomma(), "123");
    assert_eq!(1234.intcomma(), "1,234");
    assert_eq!(12345.intcomma(), "12,345");
    assert_eq!(123456.intcomma(), "123,456");
    assert_eq!(1234567.intcomma(), "1,234,567");
}

#[test]
fn test_int_separators_negative() {
    assert_eq!((-1).intcomma(), "-1");
    assert_eq!((-12).intcomma(), "-12");
    assert_eq!((-123).intcomma(), "-123");
    assert_eq!((-1234).intcomma(), "-1,234");
    assert_eq!((-12345).intcomma(), "-12,345");
    assert_eq!((-123456).intcomma(), "-123,456");
    assert_eq!((-1234567).intcomma(), "-1,234,567");
}

#[test]
fn test_times() {
    assert_eq!(0.times(), "never");
    assert_eq!(1.times(), "once");
    assert_eq!(2.times(), "twice");
    assert_eq!(3.times(), "three times");
    assert_eq!(10.times(), "ten times");
    assert_eq!((-1).times(), "minus one time");
    assert_eq!((-2).times(), "minus two times");
}

#[test]
fn ordinal_suffix_follows_the_last_digit_only() {
    assert_eq!(1.ord(), "1st");
    assert_eq!(3.ord(), "3rd");
    assert_eq!(4.ord(), "4th");
    assert_eq!(9.ord(), "9th");
    assert_eq!(10.ord(), "10th");
    assert_eq!(11.ord(), "11st");
    assert_eq!(12.ord(), "12nd");
    assert_eq!(13.ord(), "13rd");
    assert_eq!(111.ord(), "111st");
    assert_eq!((-23).ord(), "-23rd");
}

#[test]
fn ordinals_at_the_ends_of_the_widths() {
    assert_eq!(u8::MAX.ord(), "255th");
    assert_eq!(i8::MIN.ord(), "-128th");
    assert_eq!(u16::MAX.ord(), "65535th");
    assert_eq!(i16::MIN.ord(), "-32768th");
    assert_eq!(u32::MAX.ord(), "4294967295th");
    assert_eq!(i32::MIN.ord(), "-2147483648th");
    assert_eq!(u64::MAX.ord(), "18446744073709551615th");
    assert_eq!(i64::MIN.ord(), "-9223372036854775808th");
    assert_eq!(i64::MAX.ord(), "9223372036854775807th");
    assert_eq!(7usize.ord(), "7th");
    assert_eq!((-7isize).ord(), "-7th");
}

#[test]
fn separators_at_the_ends_of_the_widths() {
    assert_eq!(u8::MAX.intcomma(), "255");
    assert_eq!(i16::MIN.intcomma(), "-32,768");
    assert_eq!(u32::MAX.intcomma(), "4,294,967,295");
    assert_eq!(u64::MAX.intcomma(), "18,446,744,073,709,551,615");
    assert_eq!(i64::MIN.intcomma(), "-9,223,372,036,854,775,808");
    assert_eq!(1000usize.intcomma(), "1,000");
    assert_eq!((-1000isize).intcomma(), "-1,000");
}

#[test]
fn separators_on_round_numbers() {
    assert_eq!(100.intcomma(), "100");
    assert_eq!(999.intcomma(), "999");
    assert_eq!(1000.intcomma(), "1,000");
    assert_eq!(100000.intcomma(), "100,000");
    assert_eq!(1000000.intcomma(), "1,000,000");
    assert_eq!((-100000).intcomma(), "-100,000");
}

#[test]
fn removing_the_commas_gives_the_plain_digits() {
    let samples: [i64; 12] = [
        0,
        7,
        -7,
        999,
        1000,
        -1000,
        123456,
        -123456,
        1000000,
        987654321,
        i64::MAX,
        i64::MIN,
    ];
    for n in samples {
        let plain: String = n.intcomma().chars().filter(|c| *c != ',').collect();
        assert_eq!(plain, format!("{}", n));
    }
    let plain: String = u64::MAX.intcomma().chars().filter(|c| *c != ',').collect();
    assert_eq!(plain, format!("{}", u64::MAX));
}

#[test]
fn commas_stand_at_every_fourth_place_from_the_right() {
    let text = 1234567890123u64.intcomma();
    let chars: Vec<char> = text.chars().collect();
    assert_eq!(text, "1,234,567,890,123");
    for (place, c) in chars.iter().enumerate() {
        assert_eq!(*c == ',', (chars.len() - place) % 4 == 0);
    }
}

#[test]
fn spelling_below_one_hundred() {
    assert_eq!(0.to_text(), "zero");
    assert_eq!(1.to_text(), "one");
    assert_eq!(9.to_text(), "nine");
    assert_eq!(10.to_text(), "ten");
    assert_eq!(11.to_text(), "eleven");
    assert_eq!(12.to_text(), "twelve");
    assert_eq!(13.to_text(), "thirteen");
    assert_eq!(14.to_text(), "fourteen");
    assert_eq!(15.to_text(), "fifteen");
    assert_eq!(16.to_text(), "sixteen");
    assert_eq!(17.to_text(), "seventeen");
    assert_eq!(18.to_text(), "eighteen");
    assert_eq!(19.to_text(), "nineteen");
    assert_eq!(20.to_text(), "twenty");
    assert_eq!(21.to_text(), "twenty-one");
    assert_eq!(30.to_text(), "thirty");
    assert_eq!(42.to_text(), "forty-two");
    assert_eq!(55.to_text(), "fifty-five");
    assert_eq!(68.to_text(), "sixty-eight");
    assert_eq!(73.to_text(), "seventy-three");
    assert_eq!(86.to_text(), "eighty-six");
    assert_eq!(99.to_text(), "ninety-nine");
}

#[test]
fn spelling_of_three_digits() {
    assert_eq!(100.to_text(), "one hundred");
    assert_eq!(101.to_text(), "one hundred and one");
    assert_eq!(110.to_text(), "one hundred and ten");
    assert_eq!(111.to_text(), "one hundred and eleven");
    assert_eq!(120.to_text(), "one hundred and twenty");
    assert_eq!(121.to_text(), "one hundred and twenty-one");
    assert_eq!(500.to_text(), "five hundred");
    assert_eq!(719.to_text(), "seven hundred and nineteen");
    assert_eq!(999.to_text(), "nine hundred and ninety-nine");
}

#[test]
fn spelling_with_scale_words() {
    assert_eq!(1234.to_text(), "one thousand two hundred and thirty-four");
    assert_eq!(12345.to_text(), "twelve thousand three hundred and forty-five");
    assert_eq!(
        123456.to_text(),
        "one hundred and twenty-three thousand four hundred and fifty-six"
    );
    assert_eq!(
        1234567.to_text(),
        "one million two hundred and thirty-four thousand five hundred and sixty-seven"
    );
    assert_eq!(1021.to_text(), "one thousand twenty-one");
    assert_eq!(20300.to_text(), "twenty thousand three hundred");
}

#[test]
fn spelling_of_groups_of_zeros() {
    assert_eq!(1000.to_text(), "one thousand  hundred");
    assert_eq!(1001.to_text(), "one thousand  hundred and one");
    assert_eq!(1011.to_text(), "one thousand  hundred and eleven");
    assert_eq!(1000000.to_text(), "one million  hundred thousand  hundred");
}

#[test]
fn spelling_of_negative_numbers() {
    assert_eq!((-1).to_text(), "minus one");
    assert_eq!((-21).to_text(), "minus twenty-one");
    assert_eq!((-101).to_text(), "minus one hundred and one");
    let samples: [i64; 5] = [-1, -19, -340, -1234, -9876543210];
    for n in samples {
        assert_eq!(n.to_text(), format!("minus {}", (-n).to_text()));
    }
}

#[test]
fn spelling_at_the_ends_of_the_widths() {
    assert_eq!(u8::MAX.to_text(), "two hundred and fifty-five");
    assert_eq!(i8::MIN.to_text(), "minus one hundred and twenty-eight");
    assert_eq!(
        u64::MAX.to_text(),
        "eighteen quintillion four hundred and forty-six quadrillion \
         seven hundred and forty-four trillion seventy-three billion \
         seven hundred and nine million five hundred and fifty-one thousand \
         six hundred and fifteen"
    );
    assert_eq!(
        i64::MIN.to_text(),
        "minus nine quintillion two hundred and twenty-three quadrillion \
         three hundred and seventy-two trillion thirty-six billion \
         eight hundred and fifty-four million seven hundred and seventy-five thousand \
         eight hundred and eight"
    );
}

#[test]
fn times_beyond_the_fixed_phrases() {
    assert_eq!(4.times(), "four times");
    assert_eq!(21.times(), "twenty-one times");
    assert_eq!(100.times(), "one hundred times");
    assert_eq!((-3).times(), "minus three times");
    assert_eq!(0u8.times(), "never");
    assert_eq!(1u64.times(), "once");
    assert_eq!(2usize.times(), "twice");
    assert_eq!((-1i64).times(), "minus one time");
    assert_eq!(i8::MIN.times(), "minus one hundred and twenty-eight times");
}

#[test]
fn every_width_agrees_on_one_value() {
    assert_eq!(101u8.to_text(), 101i64.to_text());
    assert_eq!(101u16.ord(), 101isize.ord());
    assert_eq!(101u32.intcomma(), 101i8.intcomma());
    assert_eq!(101usize.times(), 101i16.times());
    assert_eq!((-101i8).to_text(), (-101i32).to_text());
}

#[test]
fn calling_twice_gives_the_same_text() {
    let n: i64 = -1234567;
    assert_eq!(n.ord(), n.ord());
    assert_eq!(n.to_text(), n.to_text());
    assert_eq!(n.intcomma(), n.intcomma());
    assert_eq!(n.times(), n.times());
}

#[test]
fn commas_of_a_negative_number_stand_behind_the_sign() {
    let text = (-123456789i64).intcomma();
    let chars: Vec<char> = text.chars().collect();
    assert_eq!(text, "-123,456,789");
    for place in 1..chars.len() {
        assert_eq!(chars[place] == ',', (chars.len() - place) % 4 == 0);
    }
}

#[test]
fn hyphens_stand_between_letters() {
    let samples: [i64; 10] = [
        21,
        -99,
        100,
        120,
        1000,
        1021,
        20300,
        -9876543210,
        i64::MAX,
        i64::MIN,
    ];
    for n in samples {
        let chars: Vec<char> = n.to_text().chars().collect();
        for (place, c) in chars.iter().enumerate() {
            if *c == '-' {
                assert!(0 < place && place + 1 < chars.len());
                assert!(chars[place - 1].is_ascii_lowercase());
                assert!(chars[place + 1].is_ascii_lowercase());
            }
        }
    }
    assert_eq!(30.to_text(), "thirty");
    assert_eq!(100.to_text(), "one hundred");
    assert_eq!(130.to_text(), "one hundred and thirty");
}

#[test]
fn spelling_of_forty() {
    assert_eq!(40.to_text(), "forty");
    assert_eq!(41.to_text(), "forty-one");
    assert_eq!(140.to_text(), "one hundred and forty");
    assert_eq!(40000.to_text(), "forty thousand  hundred");
    assert_eq!((-40).to_text(), "minus forty");
    assert_eq!(40.times(), "forty times");
}
