use time_signal::speakers::{find_speaker_and_style, Speaker, Style};

fn catalog() -> Vec<Speaker> {
    vec![
        Speaker {
            name: "四国めたん".to_string(),
            styles: vec![
                Style { name: "ノーマル".to_string(), id: 2 },
                Style { name: "あまあま".to_string(), id: 0 },
            ],
        },
        Speaker {
            name: "ずんだもん".to_string(),
            styles: vec![
                Style { name: "ノーマル".to_string(), id: 3 },
                Style { name: "セクシー".to_string(), id: 5 },
            ],
        },
    ]
}

#[test]
fn style_id_resolves_to_its_speaker_and_style() {
    let speakers = catalog();
    assert_eq!(find_speaker_and_style(&speakers, 2), Some((0, 0)));
    assert_eq!(find_speaker_and_style(&speakers, 0), Some((0, 1)));
    assert_eq!(find_speaker_and_style(&speakers, 3), Some((1, 0)));
    assert_eq!(find_speaker_and_style(&speakers, 5), Some((1, 1)));
}

#[test]
fn unknown_style_id_resolves_to_nothing() {
    let speakers = catalog();
    assert_eq!(find_speaker_and_style(&speakers, 7), None);
    assert_eq!(find_speaker_and_style(&Vec::new(), 2), None);
}

#[test]
fn first_matching_style_wins() {
    let speakers = vec![
        Speaker {
            name: "a".to_string(),
            styles: vec![Style { name: "x".to_string(), id: 9 }],
        },
        Speaker {
            name: "b".to_string(),
            styles: vec![Style { name: "y".to_string(), id: 9 }],
        },
    ];
    assert_eq!(find_speaker_and_style(&speakers, 9), Some((0, 0)));
}
