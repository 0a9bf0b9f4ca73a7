use mockd::address::{
    self, City, Info, Street, LATITUDE_LIMIT, LONGITUDE_LIMIT, UNITS_PER_DEGREE,
};
use mockd::data::address::{
    COUNTRY, COUNTRY_ABR, NUMBER, STATE, STATE_ABR, STREET_PREFIX, STREET_SUFFIX, ZIP,
};
use mockd::data::name::{FIRST, LAST};

fn exec_mes<F: Fn() -> String>(name: &str, generate: F) -> String {
    let data = generate();
    println!("{name}: {data}");
    data
}

fn is_filling(template: &str, out: &str) -> bool {
    let marks: Vec<char> = template.chars().collect();
    let chars: Vec<char> = out.chars().collect();
    marks.len() == chars.len()
        && marks.iter().zip(chars.iter()).all(|(m, c)| {
            if *m == '#' {
                c.is_ascii_digit()
            } else {
                c == m
            }
        })
}

fn fills_one_of(table: &[&str], out: &str) -> bool {
    table.iter().any(|t| is_filling(t, out))
}

fn is_street(s: &str) -> bool {
    let Some((number, rest)) = s.split_once(' ') else {
        return false;
    };
    if !fills_one_of(&NUMBER, number) {
        return false;
    }
    STREET_SUFFIX.iter().any(|suffix| match rest.strip_suffix(&format!(" {suffix}")) {
        None => false,
        Some(head) => {
            STATE.contains(&head)
                || STREET_PREFIX.iter().any(|prefix| {
                    match head.strip_prefix(&format!("{prefix} ")) {
                        None => false,
                        Some(name) => STATE.contains(&name),
                    }
                })
        }
    })
}

fn is_city(s: &str) -> bool {
    let attached = STREET_SUFFIX.iter().any(|suffix| match s.strip_suffix(suffix) {
        None => false,
        Some(head) => FIRST.contains(&head) || LAST.contains(&head),
    });
    let spaced = STREET_PREFIX.iter().any(|prefix| {
        match s.strip_prefix(&format!("{prefix} ")) {
            None => false,
            Some(last) => LAST.contains(&last),
        }
    });
    attached || spaced
}

fn is_address_line(s: &str) -> bool {
    let Some((street, rest)) = s.split_once(", ") else {
        return false;
    };
    let Some((city, rest)) = rest.split_once(", ") else {
        return false;
    };
    let Some((state, zip)) = rest.rsplit_once(' ') else {
        return false;
    };
    is_street(street) && is_city(city) && STATE.contains(&state) && fills_one_of(&ZIP, zip)
}

#[test]
fn street() {
    let data = exec_mes("address::street", address::street);
    assert!(is_street(&data), "{data}");
}

#[test]
fn street_number() {
    let data = exec_mes("address::street_number", address::street_number);
    assert!(fills_one_of(&NUMBER, &data), "{data}");
}

#[test]
fn street_prefix() {
    let data = exec_mes("address::street_prefix", address::street_prefix);
    assert!(STREET_PREFIX.contains(&data.as_str()), "{data}");
}

#[test]
fn street_name() {
    let data = exec_mes("address::street_name", address::street_name);
    assert!(STATE.contains(&data.as_str()), "{data}");
}

#[test]
fn street_suffix() {
    let data = exec_mes("address::street_suffix", address::street_suffix);
    assert!(STREET_SUFFIX.contains(&data.as_str()), "{data}");
}

#[test]
fn city() {
    let data = exec_mes("address::city", address::city);
    assert!(is_city(&data), "{data}");
}

#[test]
fn state() {
    let data = exec_mes("address::state", address::state);
    assert!(STATE.contains(&data.as_str()), "{data}");
}

#[test]
fn state_abr() {
    let data = exec_mes("address::state_abr", address::state_abr);
    assert!(STATE_ABR.contains(&data.as_str()), "{data}");
}

#[test]
fn zip() {
    let data = exec_mes("address::zip", address::zip);
    assert!(fills_one_of(&ZIP, &data), "{data}");
}

#[test]
fn country() {
    let data = exec_mes("address::country", address::country);
    assert!(COUNTRY.contains(&data.as_str()), "{data}");
}

#[test]
fn country_abr() {
    let data = exec_mes("address::country_abr", address::country_abr);
    assert!(COUNTRY_ABR.contains(&data.as_str()), "{data}");
}

#[test]
fn latitude() {
    let data = exec_mes("address::latitude", || format!("{}", address::latitude()));
    let v: i64 = data.parse().unwrap();
    assert!((-LATITUDE_LIMIT..=LATITUDE_LIMIT).contains(&v));
}

#[test]
fn latitude_in_range() {
    let data = exec_mes("address::latitude_in_range", || {
        format!("{}", address::latitude_in_range(-30 * UNITS_PER_DEGREE, 30 * UNITS_PER_DEGREE))
    });
    let v: i64 = data.parse().unwrap();
    assert!((-30_000_000..=30_000_000).contains(&v));
}

#[test]
fn longitude() {
    let data = exec_mes("address::longitude", || format!("{}", address::longitude()));
    let v: i64 = data.parse().unwrap();
    assert!((-LONGITUDE_LIMIT..=LONGITUDE_LIMIT).contains(&v));
}

#[test]
fn longitude_in_range() {
    let data = exec_mes("address::longitude_in_range", || {
        format!("{}", address::longitude_in_range(-30 * UNITS_PER_DEGREE, 30 * UNITS_PER_DEGREE))
    });
    let v: i64 = data.parse().unwrap();
    assert!((-30_000_000..=30_000_000).contains(&v));
}

#[test]
fn coordinate_limits_are_ninety_and_one_hundred_eighty_degrees() {
    assert_eq!(UNITS_PER_DEGREE, 1_000_000);
    assert_eq!(LATITUDE_LIMIT, 90 * UNITS_PER_DEGREE);
    assert_eq!(LONGITUDE_LIMIT, 180 * UNITS_PER_DEGREE);
}

#[test]
fn street_is_always_well_formed() {
    for _ in 0..500 {
        let data = address::street();
        assert!(is_street(&data), "{data}");
    }
}

#[test]
fn street_render_joins_the_parts_with_spaces() {
    let prefixed = Street::Prefixed {
        number: String::from("1128"),
        prefix: String::from("South"),
        name: String::from("North Dakota"),
        suffix: String::from("borough"),
    };
    assert_eq!(prefixed.render(), "1128 South North Dakota borough");
    let plain = Street::Plain {
        number: String::from("315"),
        name: String::from("Kansas"),
        suffix: String::from("mouth"),
    };
    assert_eq!(plain.render(), "315 Kansas mouth");
}

#[test]
fn street_render_keeps_empty_parts_in_place() {
    let plain = Street::Plain {
        number: String::new(),
        name: String::new(),
        suffix: String::new(),
    };
    assert_eq!(plain.render(), "  ");
}

#[test]
fn street_generate_takes_both_shapes() {
    let mut prefixed = 0;
    let mut plain = 0;
    for _ in 0..400 {
        let street = Street::generate();
        let text = street.render();
        assert!(is_street(&text), "{text}");
        match street {
            Street::Prefixed { number, prefix, name, suffix } => {
                prefixed += 1;
                assert!(fills_one_of(&NUMBER, &number));
                assert!(STREET_PREFIX.contains(&prefix.as_str()));
                assert!(STATE.contains(&name.as_str()));
                assert!(STREET_SUFFIX.contains(&suffix.as_str()));
            }
            Street::Plain { number, name, suffix } => {
                plain += 1;
                assert!(fills_one_of(&NUMBER, &number));
                assert!(STATE.contains(&name.as_str()));
                assert!(STREET_SUFFIX.contains(&suffix.as_str()));
            }
        }
    }
    assert!(prefixed > 100 && plain > 100);
}

#[test]
fn street_number_has_three_to_five_digits() {
    let mut lengths = [false; 6];
    for _ in 0..500 {
        let data = address::street_number();
        assert!(data.chars().all(|c| c.is_ascii_digit()));
        assert!((3..=5).contains(&data.len()));
        lengths[data.len()] = true;
    }
    assert!(lengths[3] && lengths[4] && lengths[5]);
}

#[test]
fn zip_has_five_digits() {
    for _ in 0..200 {
        let data = address::zip();
        assert_eq!(data.len(), 5);
        assert!(data.chars().all(|c| c.is_ascii_digit()));
    }
}

#[test]
fn city_is_always_well_formed() {
    for _ in 0..500 {
        let data = address::city();
        assert!(is_city(&data), "{data}");
    }
}

#[test]
fn city_render_attaches_or_spaces_the_parts() {
    let first = City::FirstSuffix { first: String::from("Anna"), suffix: String::from("ville") };
    assert_eq!(first.render(), "Annaville");
    let last = City::LastSuffix { last: String::from("Schmeler"), suffix: String::from("burgh") };
    assert_eq!(last.render(), "Schmelerburgh");
    let spaced = City::PrefixLast { prefix: String::from("Port"), last: String::from("Rowe") };
    assert_eq!(spaced.render(), "Port Rowe");
}

#[test]
fn city_generate_takes_all_three_shapes() {
    let mut counts = [0; 3];
    for _ in 0..600 {
        let city = City::generate();
        let text = city.render();
        assert!(is_city(&text), "{text}");
        match city {
            City::FirstSuffix { first, suffix } => {
                counts[0] += 1;
                assert!(FIRST.contains(&first.as_str()));
                assert!(STREET_SUFFIX.contains(&suffix.as_str()));
            }
            City::LastSuffix { last, suffix } => {
                counts[1] += 1;
                assert!(LAST.contains(&last.as_str()));
                assert!(STREET_SUFFIX.contains(&suffix.as_str()));
            }
            City::PrefixLast { prefix, last } => {
                counts[2] += 1;
                assert!(STREET_PREFIX.contains(&prefix.as_str()));
                assert!(LAST.contains(&last.as_str()));
            }
        }
    }
    assert!(counts.iter().all(|c| *c > 100));
}

#[test]
fn table_picks_return_every_entry_of_a_small_table() {
    let mut seen = [false; 7];
    for _ in 0..2000 {
        let data = address::street_prefix();
        let at = STREET_PREFIX.iter().position(|p| *p == data).unwrap();
        seen[at] = true;
    }
    assert_eq!(seen, [true; 7]);
}

#[test]
fn address_tables_pair_up() {
    assert_eq!(STATE.len(), STATE_ABR.len());
    assert_eq!(COUNTRY.len(), COUNTRY_ABR.len());
    assert!(STATE_ABR.iter().chain(COUNTRY_ABR.iter()).all(|abr| abr.len() == 2));
    assert_eq!(ZIP, ["#####"]);
    assert_eq!(NUMBER, ["#####", "####", "###"]);
}

#[test]
fn latitude_stays_within_ninety_degrees() {
    let mut north = false;
    let mut south = false;
    for _ in 0..2000 {
        let v = address::latitude();
        assert!((-90_000_000..=90_000_000).contains(&v));
        north = north || v > 0;
        south = south || v < 0;
    }
    assert!(north && south);
}

#[test]
fn longitude_stays_within_one_hundred_eighty_degrees() {
    let mut beyond_latitudes = false;
    for _ in 0..2000 {
        let v = address::longitude();
        assert!((-180_000_000..=180_000_000).contains(&v));
        beyond_latitudes = beyond_latitudes || v > 90_000_000 || v < -90_000_000;
    }
    assert!(beyond_latitudes);
}

#[test]
fn latitude_in_range_honours_twenty_to_fifty_degrees() {
    for _ in 0..2000 {
        let v = address::latitude_in_range(20_000_000, 50_000_000);
        assert!((20_000_000..=50_000_000).contains(&v));
    }
}

#[test]
fn latitude_in_range_ignores_a_range_beyond_ninety_degrees() {
    for _ in 0..2000 {
        let v = address::latitude_in_range(100_000_000, 200_000_000);
        assert!((-90_000_000..=90_000_000).contains(&v));
        assert!(!(100_000_000..=200_000_000).contains(&v));
    }
}

#[test]
fn latitude_in_range_ignores_an_inverted_range() {
    let mut outside = false;
    for _ in 0..2000 {
        let v = address::latitude_in_range(50_000_000, 20_000_000);
        assert!((-90_000_000..=90_000_000).contains(&v));
        outside = outside || !(20_000_000..=50_000_000).contains(&v);
    }
    assert!(outside);
}

#[test]
fn latitude_in_range_accepts_the_limits_themselves() {
    assert_eq!(address::latitude_in_range(90_000_000, 90_000_000), 90_000_000);
    assert_eq!(address::latitude_in_range(-90_000_000, -90_000_000), -90_000_000);
    for _ in 0..200 {
        let v = address::latitude_in_range(89_999_999, 90_000_000);
        assert!(v == 89_999_999 || v == 90_000_000);
    }
}

#[test]
fn latitude_in_range_ignores_a_range_one_unit_too_wide() {
    let mut elsewhere = false;
    for _ in 0..200 {
        let v = address::latitude_in_range(90_000_000, 90_000_001);
        assert!((-90_000_000..=90_000_000).contains(&v));
        elsewhere = elsewhere || v != 90_000_000;
    }
    assert!(elsewhere);
}

#[test]
fn longitude_in_range_ignores_a_range_below_minus_one_hundred_eighty_degrees() {
    let mut above_request = false;
    let mut beyond_latitudes = false;
    for _ in 0..2000 {
        let v = address::longitude_in_range(-200_000_000, 10_000_000);
        assert!((-180_000_000..=180_000_000).contains(&v));
        above_request = above_request || v > 10_000_000;
        beyond_latitudes = beyond_latitudes || v > 90_000_000 || v < -90_000_000;
    }
    assert!(above_request);
    assert!(beyond_latitudes);
}

#[test]
fn longitude_in_range_honours_a_range_beyond_ninety_degrees() {
    for _ in 0..2000 {
        let v = address::longitude_in_range(100_000_000, 170_000_000);
        assert!((100_000_000..=170_000_000).contains(&v));
    }
}

#[test]
fn address_line_joins_street_city_state_and_zip() {
    assert_eq!(
        address::address_line("315 Kansas mouth", "Port Rowe", "Ohio", "75221"),
        "315 Kansas mouth, Port Rowe, Ohio 75221"
    );
    assert_eq!(address::address_line("", "", "", ""), ", ,  ");
}

#[test]
fn info_fills_every_field() {
    for _ in 0..200 {
        let Info { address, street, city, state, zip, country, latitude, longitude } =
            address::info();
        assert!(is_address_line(&address), "{address}");
        assert!(is_street(&street), "{street}");
        assert!(is_city(&city), "{city}");
        assert!(STATE.contains(&state.as_str()));
        assert!(fills_one_of(&ZIP, &zip));
        assert!(COUNTRY.contains(&country.as_str()));
        assert!((-LATITUDE_LIMIT..=LATITUDE_LIMIT).contains(&latitude));
        assert!((-LONGITUDE_LIMIT..=LONGITUDE_LIMIT).contains(&longitude));
    }
}
