use mqttbot::City;
use mqttbot::Country;
use mqttbot::Data;
use mqttbot::Place;
use mqttbot::bike_finder;
use mqttbot::first_station_sid;

fn map_with_bikes(bike_numbers: Vec<String>) -> Data {
    Data {
        countries: vec![
            Country { name: "Austria".to_string(), cities: vec![] },
            Country {
                name: "Germany".to_string(),
                cities: vec![
                    City { name: "Dresden".to_string(), places: vec![] },
                    City {
                        name: "Leipzig".to_string(),
                        places: vec![
                            Place { number: 4000, bike_numbers: vec!["20091".to_string()] },
                            Place { number: 4101, bike_numbers },
                        ],
                    },
                ],
            },
        ],
    }
}

#[test]
fn test_bike_finder_reports_cargo_bike_at_home_station() {
    let data = map_with_bikes(vec!["11111".to_string(), "20118".to_string()]);
    assert_eq!(bike_finder(data), Some(()));
}

#[test]
fn test_bike_finder_ignores_other_stations_and_bikes() {
    // Station 4000 has a cargo bike, the home station 4101 does not.
    let data = map_with_bikes(vec!["11111".to_string(), "22222".to_string()]);
    assert_eq!(bike_finder(data), None);
}

#[test]
fn test_bike_finder_without_home_station() {
    let data = Data {
        countries: vec![Country {
            name: "Germany".to_string(),
            cities: vec![City { name: "Berlin".to_string(), places: vec![] }],
        }],
    };
    assert_eq!(bike_finder(data), None);
}

#[test]
fn test_first_station_sid() {
    assert_eq!(first_station_sid(&vec![]), None);
    assert_eq!(first_station_sid(&vec![4711, 4712]), Some("4711".to_string()));
}
