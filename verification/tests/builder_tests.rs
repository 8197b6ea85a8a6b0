use meteoraid::areas::Area;
use meteoraid::builder::{checkpoints_to_durations, BuilderError, SessionBuilder};
use meteoraid::field::Field;
use meteoraid::meteor::{Meteor, Shower};
use meteoraid::session::{Event, TimestampedEvent};
use meteoraid::timestamp::Timestamp;

#[test]
fn test_ctd_1() {
    let checkpoints: Vec<(f64, Timestamp)> = vec![
        (
            5.6,
            Timestamp {
                hour: 23,
                minute: 50,
            },
        ),
        (6.0, Timestamp { hour: 0, minute: 1 }),
        (
            5.3,
            Timestamp {
                hour: 1,
                minute: 15,
            },
        ),
    ];
    let end = Timestamp {
        hour: 1,
        minute: 30,
    };
    let breaks: Vec<(Timestamp, Timestamp)> = vec![
        (
            Timestamp {
                hour: 23,
                minute: 59,
            },
            Timestamp { hour: 0, minute: 0 },
        ),
        (
            Timestamp {
                hour: 3,
                minute: 15,
            },
            Timestamp {
                hour: 4,
                minute: 14,
            },
        ),
    ];

    let expected: Vec<(f64, u32)> = vec![(5.6, 10), (6.0, 74), (5.3, 15)];
    assert_eq!(
        checkpoints_to_durations(&checkpoints, end, &breaks),
        Some(expected)
    );
}

#[test]
fn test_ctd_2() {
    let checkpoints: Vec<(f64, Timestamp)> = vec![(
        5.6,
        Timestamp {
            hour: 23,
            minute: 50,
        },
    )];
    let end = Timestamp {
        hour: 1,
        minute: 30,
    };

    let expected: Vec<(f64, u32)> = vec![(5.6, 100)];
    assert_eq!(
        checkpoints_to_durations(&checkpoints, end, &vec![]),
        Some(expected)
    );
}

#[test]
fn test_ctd_3() {
    let checkpoints: Vec<(f64, Timestamp)> = vec![];
    let end = Timestamp {
        hour: 1,
        minute: 30,
    };

    let expected: Vec<(f64, u32)> = vec![];
    assert_eq!(
        checkpoints_to_durations(&checkpoints, end, &vec![]),
        Some(expected)
    );
}

#[test]
fn test_ctd_4() {
    let checkpoints: Vec<(u8, Timestamp)> = vec![
        (
            56,
            Timestamp {
                hour: 23,
                minute: 50,
            },
        ),
        (60, Timestamp { hour: 0, minute: 1 }),
        (
            53,
            Timestamp {
                hour: 1,
                minute: 15,
            },
        ),
    ];
    let end = Timestamp {
        hour: 1,
        minute: 30,
    };
    let breaks: Vec<(Timestamp, Timestamp)> = vec![(
        Timestamp {
            hour: 23,
            minute: 59,
        },
        Timestamp { hour: 0, minute: 0 },
    )];

    let expected: Vec<(u8, u32)> = vec![(56, 10), (60, 74), (53, 15)];
    assert_eq!(
        checkpoints_to_durations(&checkpoints, end, &breaks),
        Some(expected)
    );
}

#[test]
fn test_ctd_5() {
    let checkpoints: Vec<(u8, Timestamp)> = vec![(
        56,
        Timestamp {
            hour: 23,
            minute: 50,
        },
    )];
    let end = Timestamp {
        hour: 1,
        minute: 30,
    };

    let expected: Vec<(u8, u32)> = vec![(56, 100)];
    assert_eq!(
        checkpoints_to_durations(&checkpoints, end, &vec![]),
        Some(expected)
    );
}

#[test]
fn test_ctd_6() {
    let checkpoints: Vec<(u8, Timestamp)> = vec![];
    let end = Timestamp {
        hour: 1,
        minute: 30,
    };

    let expected: Vec<(u8, u32)> = vec![];
    assert_eq!(
        checkpoints_to_durations(&checkpoints, end, &vec![]),
        Some(expected)
    );
}

#[test]
fn test_ctd_7() {
    let checkpoints: Vec<(u8, Timestamp)> = vec![(
        56,
        Timestamp {
            hour: 1,
            minute: 15,
        },
    )];
    let end = Timestamp {
        hour: 1,
        minute: 30,
    };
    let breaks: Vec<(Timestamp, Timestamp)> = vec![(
        Timestamp {
            hour: 1,
            minute: 20,
        },
        Timestamp {
            hour: 1,
            minute: 35,
        },
    )];

    assert_eq!(checkpoints_to_durations(&checkpoints, end, &breaks), None);
}

fn round(a: f64) -> f64 {
    (a * 100_f64).round() / 100_f64
}

/// Effective duration in hours, as the reports carry it.
fn teff_hours(minutes: u32) -> f64 {
    f64::from(minutes) / 60_f64
}

/// A scaled factor or magnitude brought back to its two-decimal value.
fn scaled(v: i32) -> f64 {
    v as f64 / 100.0
}

#[test]
fn test_builder_1() {
    let mut builder = SessionBuilder::new();
    let start = Timestamp {
        hour: 22,
        minute: 55,
    };
    let end = Timestamp {
        hour: 1,
        minute: 20,
    };
    builder
        .register_event(TimestampedEvent(start, Event::PeriodStart))
        .unwrap();
    builder
        .register_event(TimestampedEvent(
            start,
            Event::PeriodDate("12 Aug 2019".to_owned()),
        ))
        .unwrap();
    builder
        .register_event(TimestampedEvent(
            start,
            Event::Showers(vec![Shower::Perseids]),
        ))
        .unwrap();
    builder
        .register_event(TimestampedEvent(
            start,
            Event::AreasCounted(vec![(10, Area(14))]),
        ))
        .unwrap();
    builder
        .register_event(TimestampedEvent(start, Event::Clouds(0)))
        .unwrap();
    builder
        .register_event(TimestampedEvent(
            start,
            Event::Field(Field { ra: 2900, dec: 550 }),
        ))
        .unwrap();
    builder
        .register_event(TimestampedEvent(
            Timestamp {
                hour: 22,
                minute: 57,
            },
            Event::Meteor(Meteor {
                shower: Shower::Perseids,
                magnitude: 35,
            }),
        ))
        .unwrap();
    builder
        .register_event(TimestampedEvent(end, Event::PeriodEnd))
        .unwrap();

    let session = builder.into_session().unwrap();
    assert_eq!(session.periods.len(), 1);
    let period = &session.periods[0];
    assert_eq!(period.start_time, start);
    assert_eq!(period.end_time, end);
    assert_eq!(period.meteors.len(), 1);
    assert_eq!(scaled(period.cloud_factor as i32), 1.0);
    assert_eq!(scaled(period.limiting_magnitude), 5.58);
    assert_eq!(round(teff_hours(period.teff_minutes)), 2.42);
}

#[test]
fn test_builder_2() {
    let mut builder = SessionBuilder::new();
    let start = Timestamp {
        hour: 22,
        minute: 55,
    };
    let end = Timestamp {
        hour: 1,
        minute: 20,
    };
    builder
        .register_event(TimestampedEvent(start, Event::PeriodStart))
        .unwrap();
    builder
        .register_event(TimestampedEvent(
            start,
            Event::PeriodDate("12 Aug 2019".to_owned()),
        ))
        .unwrap();
    builder
        .register_event(TimestampedEvent(
            start,
            Event::Showers(vec![Shower::Perseids]),
        ))
        .unwrap();
    builder
        .register_event(TimestampedEvent(
            start,
            Event::AreasCounted(vec![(10, Area(14))]),
        ))
        .unwrap();
    builder
        .register_event(TimestampedEvent(start, Event::Clouds(0)))
        .unwrap();
    builder
        .register_event(TimestampedEvent(
            start,
            Event::Field(Field { ra: 2900, dec: 550 }),
        ))
        .unwrap();
    builder
        .register_event(TimestampedEvent(
            Timestamp {
                hour: 22,
                minute: 57,
            },
            Event::Meteor(Meteor {
                shower: Shower::Perseids,
                magnitude: 35,
            }),
        ))
        .unwrap();
    builder
        .register_event(TimestampedEvent(end, Event::PeriodEnd))
        .unwrap();
    builder
        .register_event(TimestampedEvent(end, Event::NewPeriod))
        .unwrap();

    let start2 = Timestamp {
        hour: 1,
        minute: 30,
    };
    let end2 = Timestamp { hour: 2, minute: 0 };
    builder
        .register_event(TimestampedEvent(start2, Event::PeriodStart))
        .unwrap();
    builder
        .register_event(TimestampedEvent(
            start2,
            Event::PeriodDate("12 Aug 2019".to_owned()),
        ))
        .unwrap();
    builder
        .register_event(TimestampedEvent(
            start2,
            Event::AreasCounted(vec![(11, Area(14))]),
        ))
        .unwrap();
    builder
        .register_event(TimestampedEvent(start2, Event::Clouds(5)))
        .unwrap();
    builder
        .register_event(TimestampedEvent(
            start2,
            Event::Field(Field { ra: 3360, dec: 523 }),
        ))
        .unwrap();
    builder
        .register_event(TimestampedEvent(end2, Event::PeriodEnd))
        .unwrap();

    let session = builder.into_session().unwrap();
    assert_eq!(session.periods.len(), 2);
    let period = &session.periods[0];
    assert_eq!(period.start_time, start);
    assert_eq!(period.end_time, end);
    assert_eq!(period.meteors.len(), 1);
    assert_eq!(scaled(period.cloud_factor as i32), 1.0);
    assert_eq!(scaled(period.limiting_magnitude), 5.58);
    assert_eq!(period.field.ra as f64 / 10.0, 290.0);
    assert_eq!(round(teff_hours(period.teff_minutes)), 2.42);

    let period2 = &session.periods[1];
    assert_eq!(period2.start_time, start2);
    assert_eq!(period2.end_time, end2);
    assert_eq!(period2.meteors.len(), 0);
    assert_eq!(scaled(period2.cloud_factor as i32), 1.05);
    assert_eq!(scaled(period2.limiting_magnitude), 5.64);
    assert_eq!(period2.field.ra as f64 / 10.0, 336.0);
    assert_eq!(teff_hours(period2.teff_minutes), 0.5);
}

#[test]
fn test_builder_3() {
    let mut builder = SessionBuilder::new();
    let start = Timestamp {
        hour: 22,
        minute: 55,
    };
    let end = Timestamp {
        hour: 1,
        minute: 20,
    };
    builder
        .register_event(TimestampedEvent(start, Event::PeriodStart))
        .unwrap();
    builder
        .register_event(TimestampedEvent(
            start,
            Event::PeriodDate("12 Aug 2019".to_owned()),
        ))
        .unwrap();
    builder
        .register_event(TimestampedEvent(
            start,
            Event::Showers(vec![Shower::Perseids]),
        ))
        .unwrap();
    builder
        .register_event(TimestampedEvent(start, Event::Clouds(0)))
        .unwrap();
    builder
        .register_event(TimestampedEvent(
            start,
            Event::Field(Field { ra: 2900, dec: 550 }),
        ))
        .unwrap();
    builder
        .register_event(TimestampedEvent(
            Timestamp {
                hour: 22,
                minute: 57,
            },
            Event::Meteor(Meteor {
                shower: Shower::Perseids,
                magnitude: 35,
            }),
        ))
        .unwrap();
    builder
        .register_event(TimestampedEvent(end, Event::PeriodEnd))
        .unwrap();

    match builder.into_session() {
        Err(BuilderError::NoLm) => {}
        _ => panic!("into_session does not return NoLm"),
    };
}

#[test]
fn test_builder_4() {
    let mut builder = SessionBuilder::new();
    let start = Timestamp {
        hour: 22,
        minute: 55,
    };
    let end = Timestamp {
        hour: 1,
        minute: 20,
    };
    builder
        .register_event(TimestampedEvent(start, Event::PeriodStart))
        .unwrap();
    builder
        .register_event(TimestampedEvent(
            start,
            Event::PeriodDate("12 Aug 2019".to_owned()),
        ))
        .unwrap();
    builder
        .register_event(TimestampedEvent(
            start,
            Event::Showers(vec![Shower::Perseids]),
        ))
        .unwrap();
    builder
        .register_event(TimestampedEvent(
            start,
            Event::AreasCounted(vec![(10, Area(14))]),
        ))
        .unwrap();
    builder
        .register_event(TimestampedEvent(
            start,
            Event::Field(Field { ra: 2900, dec: 550 }),
        ))
        .unwrap();
    builder
        .register_event(TimestampedEvent(
            Timestamp {
                hour: 22,
                minute: 57,
            },
            Event::Meteor(Meteor {
                shower: Shower::Perseids,
                magnitude: 35,
            }),
        ))
        .unwrap();
    builder
        .register_event(TimestampedEvent(end, Event::PeriodEnd))
        .unwrap();

    match builder.into_session() {
        Err(BuilderError::NoF) => {}
        _ => panic!("into_session does not return NoF"),
    };
}

#[test]
fn test_builder_5() {
    let mut builder = SessionBuilder::new();
    let start = Timestamp {
        hour: 22,
        minute: 55,
    };
    let end = Timestamp {
        hour: 1,
        minute: 20,
    };
    builder
        .register_event(TimestampedEvent(
            start,
            Event::PeriodDate("12 Aug 2019".to_owned()),
        ))
        .unwrap();
    builder
        .register_event(TimestampedEvent(
            start,
            Event::Showers(vec![Shower::Perseids]),
        ))
        .unwrap();
    builder
        .register_event(TimestampedEvent(
            start,
            Event::AreasCounted(vec![(10, Area(14))]),
        ))
        .unwrap();
    builder
        .register_event(TimestampedEvent(start, Event::Clouds(0)))
        .unwrap();
    builder
        .register_event(TimestampedEvent(
            start,
            Event::Field(Field { ra: 2900, dec: 550 }),
        ))
        .unwrap();
    builder
        .register_event(TimestampedEvent(
            Timestamp {
                hour: 22,
                minute: 57,
            },
            Event::Meteor(Meteor {
                shower: Shower::Perseids,
                magnitude: 35,
            }),
        ))
        .unwrap();
    builder
        .register_event(TimestampedEvent(end, Event::PeriodEnd))
        .unwrap();

    match builder.into_session() {
        Err(BuilderError::NoStartTime) => {}
        _ => panic!("into_session does not return NoStartTime"),
    };
}

#[test]
fn test_builder_6() {
    let mut builder = SessionBuilder::new();
    let start = Timestamp {
        hour: 22,
        minute: 55,
    };
    builder
        .register_event(TimestampedEvent(start, Event::PeriodStart))
        .unwrap();
    builder
        .register_event(TimestampedEvent(
            start,
            Event::PeriodDate("12 Aug 2019".to_owned()),
        ))
        .unwrap();
    builder
        .register_event(TimestampedEvent(
            start,
            Event::Showers(vec![Shower::Perseids]),
        ))
        .unwrap();
    builder
        .register_event(TimestampedEvent(
            start,
            Event::AreasCounted(vec![(10, Area(14))]),
        ))
        .unwrap();
    builder
        .register_event(TimestampedEvent(start, Event::Clouds(0)))
        .unwrap();
    builder
        .register_event(TimestampedEvent(
            start,
            Event::Field(Field { ra: 2900, dec: 550 }),
        ))
        .unwrap();
    builder
        .register_event(TimestampedEvent(
            Timestamp {
                hour: 22,
                minute: 57,
            },
            Event::Meteor(Meteor {
                shower: Shower::Perseids,
                magnitude: 35,
            }),
        ))
        .unwrap();

    match builder.into_session() {
        Err(BuilderError::NoEndTime) => {}
        _ => panic!("into_session does not return NoEndTime"),
    };
}

#[test]
fn test_builder_7() {
    let mut builder = SessionBuilder::new();
    let start = Timestamp {
        hour: 22,
        minute: 55,
    };
    let end = Timestamp {
        hour: 1,
        minute: 20,
    };
    builder
        .register_event(TimestampedEvent(start, Event::PeriodStart))
        .unwrap();
    builder
        .register_event(TimestampedEvent(
            start,
            Event::PeriodDate("12 Aug 2019".to_owned()),
        ))
        .unwrap();
    builder
        .register_event(TimestampedEvent(
            start,
            Event::Showers(vec![Shower::Perseids]),
        ))
        .unwrap();
    builder
        .register_event(TimestampedEvent(
            start,
            Event::AreasCounted(vec![(10, Area(14))]),
        ))
        .unwrap();
    builder
        .register_event(TimestampedEvent(start, Event::Clouds(0)))
        .unwrap();
    builder
        .register_event(TimestampedEvent(
            Timestamp {
                hour: 22,
                minute: 57,
            },
            Event::Meteor(Meteor {
                shower: Shower::Perseids,
                magnitude: 35,
            }),
        ))
        .unwrap();
    builder
        .register_event(TimestampedEvent(end, Event::PeriodEnd))
        .unwrap();

    match builder.into_session() {
        Err(BuilderError::NoField) => {}
        _ => panic!("into_session does not return NoField"),
    };
}

#[test]
fn test_builder_8() {
    let mut builder = SessionBuilder::new();
    let start = Timestamp {
        hour: 22,
        minute: 55,
    };
    let end = Timestamp {
        hour: 1,
        minute: 20,
    };
    builder
        .register_event(TimestampedEvent(start, Event::PeriodStart))
        .unwrap();
    builder
        .register_event(TimestampedEvent(
            start,
            Event::PeriodDate("12 Aug 2019".to_owned()),
        ))
        .unwrap();
    builder
        .register_event(TimestampedEvent(
            start,
            Event::Showers(vec![Shower::Perseids]),
        ))
        .unwrap();
    builder
        .register_event(TimestampedEvent(
            start,
            Event::AreasCounted(vec![(10, Area(14))]),
        ))
        .unwrap();
    builder
        .register_event(TimestampedEvent(start, Event::Clouds(0)))
        .unwrap();
    builder
        .register_event(TimestampedEvent(
            start,
            Event::Field(Field { ra: 2900, dec: 550 }),
        ))
        .unwrap();
    builder
        .register_event(TimestampedEvent(
            Timestamp {
                hour: 22,
                minute: 57,
            },
            Event::Meteor(Meteor {
                shower: Shower::Perseids,
                magnitude: 35,
            }),
        ))
        .unwrap();
    builder
        .register_event(TimestampedEvent(
            Timestamp { hour: 0, minute: 1 },
            Event::BreakStart,
        ))
        .unwrap();
    builder
        .register_event(TimestampedEvent(
            Timestamp {
                hour: 0,
                minute: 31,
            },
            Event::BreakEnd,
        ))
        .unwrap();
    builder
        .register_event(TimestampedEvent(end, Event::PeriodEnd))
        .unwrap();

    let session = builder.into_session().unwrap();
    assert_eq!(session.periods.len(), 1);
    let period = &session.periods[0];
    assert_eq!(period.start_time, start);
    assert_eq!(period.end_time, end);
    assert_eq!(period.meteors.len(), 1);
    assert_eq!(scaled(period.cloud_factor as i32), 1.0);
    assert_eq!(scaled(period.limiting_magnitude), 5.58);
    assert_eq!(round(teff_hours(period.teff_minutes)), 1.92);
}

#[test]
fn test_builder_9() {
    let mut builder = SessionBuilder::new();
    let start = Timestamp {
        hour: 22,
        minute: 55,
    };
    builder
        .register_event(TimestampedEvent(start, Event::PeriodStart))
        .unwrap();
    builder
        .register_event(TimestampedEvent(
            start,
            Event::PeriodDate("12 Aug 2019".to_owned()),
        ))
        .unwrap();
    builder
        .register_event(TimestampedEvent(
            start,
            Event::Showers(vec![Shower::Perseids]),
        ))
        .unwrap();
    builder
        .register_event(TimestampedEvent(
            start,
            Event::AreasCounted(vec![(10, Area(14))]),
        ))
        .unwrap();
    builder
        .register_event(TimestampedEvent(start, Event::Clouds(0)))
        .unwrap();
    builder
        .register_event(TimestampedEvent(
            start,
            Event::Field(Field { ra: 2900, dec: 550 }),
        ))
        .unwrap();
    builder
        .register_event(TimestampedEvent(
            Timestamp {
                hour: 22,
                minute: 57,
            },
            Event::Meteor(Meteor {
                shower: Shower::Perseids,
                magnitude: 35,
            }),
        ))
        .unwrap();
    builder
        .register_event(TimestampedEvent(
            Timestamp { hour: 0, minute: 1 },
            Event::BreakStart,
        ))
        .unwrap();
    match builder.register_event(TimestampedEvent(
        Timestamp { hour: 0, minute: 2 },
        Event::Clouds(5),
    )) {
        Err(BuilderError::InBreak) => {}
        _ => panic!("register_event didn't return InBreak"),
    };
}

#[test]
fn test_builder_10() {
    let mut builder = SessionBuilder::new();
    let start = Timestamp {
        hour: 22,
        minute: 55,
    };
    let end = Timestamp {
        hour: 1,
        minute: 20,
    };
    builder
        .register_event(TimestampedEvent(start, Event::PeriodStart))
        .unwrap();
    builder
        .register_event(TimestampedEvent(
            start,
            Event::PeriodDate("12 Aug 2019".to_owned()),
        ))
        .unwrap();
    builder
        .register_event(TimestampedEvent(
            start,
            Event::Showers(vec![Shower::Perseids]),
        ))
        .unwrap();
    builder
        .register_event(TimestampedEvent(
            start,
            Event::AreasCounted(vec![(10, Area(14)), (10, Area(7)), (8, Area(6))]),
        ))
        .unwrap();
    builder
        .register_event(TimestampedEvent(start, Event::Clouds(0)))
        .unwrap();
    builder
        .register_event(TimestampedEvent(
            start,
            Event::Field(Field { ra: 2900, dec: 550 }),
        ))
        .unwrap();
    builder
        .register_event(TimestampedEvent(
            Timestamp {
                hour: 22,
                minute: 57,
            },
            Event::Meteor(Meteor {
                shower: Shower::Perseids,
                magnitude: 35,
            }),
        ))
        .unwrap();
    builder
        .register_event(TimestampedEvent(
            Timestamp { hour: 0, minute: 0 },
            Event::AreasCounted(vec![(12, Area(14)), (12, Area(7)), (10, Area(6))]),
        ))
        .unwrap();
    builder
        .register_event(TimestampedEvent(
            Timestamp { hour: 0, minute: 0 },
            Event::Clouds(15),
        ))
        .unwrap();
    builder
        .register_event(TimestampedEvent(end, Event::PeriodEnd))
        .unwrap();

    let session = builder.into_session().unwrap();
    assert_eq!(session.periods.len(), 1);
    let period = &session.periods[0];
    assert_eq!(period.start_time, start);
    assert_eq!(period.end_time, end);
    assert_eq!(period.meteors.len(), 1);
    assert_eq!(scaled(period.cloud_factor as i32), 1.09);
    assert_eq!(scaled(period.limiting_magnitude), 5.76);
    assert_eq!(round(teff_hours(period.teff_minutes)), 2.42);
}

#[test]
fn test_builder_11() {
    let mut builder = SessionBuilder::new();
    let start = Timestamp {
        hour: 22,
        minute: 55,
    };
    let end = Timestamp {
        hour: 1,
        minute: 20,
    };
    builder
        .register_event(TimestampedEvent(start, Event::PeriodStart))
        .unwrap();
    builder
        .register_event(TimestampedEvent(
            start,
            Event::PeriodDate("12 Aug 2019".to_owned()),
        ))
        .unwrap();
    builder
        .register_event(TimestampedEvent(
            start,
            Event::Showers(vec![Shower::Perseids]),
        ))
        .unwrap();
    builder
        .register_event(TimestampedEvent(
            start,
            Event::AreasCounted(vec![(10, Area(14)), (10, Area(7)), (8, Area(6))]),
        ))
        .unwrap();
    builder
        .register_event(TimestampedEvent(start, Event::Clouds(0)))
        .unwrap();
    builder
        .register_event(TimestampedEvent(
            start,
            Event::Field(Field { ra: 2900, dec: 550 }),
        ))
        .unwrap();
    builder
        .register_event(TimestampedEvent(
            Timestamp {
                hour: 22,
                minute: 57,
            },
            Event::Meteor(Meteor {
                shower: Shower::Perseids,
                magnitude: 35,
            }),
        ))
        .unwrap();
    builder
        .register_event(TimestampedEvent(
            Timestamp {
                hour: 23,
                minute: 15,
            },
            Event::BreakStart,
        ))
        .unwrap();
    builder
        .register_event(TimestampedEvent(
            Timestamp {
                hour: 23,
                minute: 55,
            },
            Event::BreakEnd,
        ))
        .unwrap();
    builder
        .register_event(TimestampedEvent(
            Timestamp { hour: 0, minute: 0 },
            Event::AreasCounted(vec![(12, Area(14)), (12, Area(7)), (10, Area(6))]),
        ))
        .unwrap();
    builder
        .register_event(TimestampedEvent(
            Timestamp { hour: 0, minute: 0 },
            Event::Clouds(15),
        ))
        .unwrap();
    builder
        .register_event(TimestampedEvent(end, Event::PeriodEnd))
        .unwrap();

    let session = builder.into_session().unwrap();
    assert_eq!(session.periods.len(), 1);
    let period = &session.periods[0];
    assert_eq!(period.start_time, start);
    assert_eq!(period.end_time, end);
    assert_eq!(period.meteors.len(), 1);
    assert_eq!(scaled(period.cloud_factor as i32), 1.13);
    assert_eq!(scaled(period.limiting_magnitude), 5.83);
    assert_eq!(teff_hours(period.teff_minutes), 1.75);
}

#[test]
fn test_builder_12() {
    let mut builder = SessionBuilder::new();
    let start = Timestamp {
        hour: 22,
        minute: 55,
    };
    builder
        .register_event(TimestampedEvent(start, Event::PeriodStart))
        .unwrap();
    builder
        .register_event(TimestampedEvent(
            start,
            Event::PeriodDate("12 Aug 2019".to_owned()),
        ))
        .unwrap();
    builder
        .register_event(TimestampedEvent(
            start,
            Event::Showers(vec![Shower::Perseids]),
        ))
        .unwrap();
    builder
        .register_event(TimestampedEvent(
            start,
            Event::AreasCounted(vec![(10, Area(14))]),
        ))
        .unwrap();
    builder
        .register_event(TimestampedEvent(start, Event::Clouds(0)))
        .unwrap();
    builder
        .register_event(TimestampedEvent(
            start,
            Event::Field(Field { ra: 2900, dec: 550 }),
        ))
        .unwrap();
    builder
        .register_event(TimestampedEvent(
            Timestamp {
                hour: 22,
                minute: 57,
            },
            Event::Meteor(Meteor {
                shower: Shower::Perseids,
                magnitude: 35,
            }),
        ))
        .unwrap();
    match builder.register_event(TimestampedEvent(
        Timestamp {
            hour: 22,
            minute: 57,
        },
        Event::Field(Field { ra: 0, dec: 0 }),
    )) {
        Err(BuilderError::AlreadyField) => {}
        _ => panic!("register_event does not return AlreadyField"),
    };
}

#[test]
fn test_builder_13() {
    let mut builder = SessionBuilder::new();
    let start = Timestamp {
        hour: 22,
        minute: 55,
    };
    builder
        .register_event(TimestampedEvent(start, Event::PeriodStart))
        .unwrap();
    builder
        .register_event(TimestampedEvent(
            start,
            Event::PeriodDate("12 Aug 2019".to_owned()),
        ))
        .unwrap();
    builder
        .register_event(TimestampedEvent(
            start,
            Event::Showers(vec![Shower::Perseids]),
        ))
        .unwrap();
    builder
        .register_event(TimestampedEvent(
            start,
            Event::AreasCounted(vec![(10, Area(14))]),
        ))
        .unwrap();
    builder
        .register_event(TimestampedEvent(start, Event::Clouds(0)))
        .unwrap();
    builder
        .register_event(TimestampedEvent(
            start,
            Event::Field(Field { ra: 2900, dec: 550 }),
        ))
        .unwrap();
    builder
        .register_event(TimestampedEvent(
            Timestamp {
                hour: 22,
                minute: 57,
            },
            Event::Meteor(Meteor {
                shower: Shower::Perseids,
                magnitude: 35,
            }),
        ))
        .unwrap();
    match builder.register_event(TimestampedEvent(
        Timestamp {
            hour: 22,
            minute: 57,
        },
        Event::Showers(vec![Shower::Leonids]),
    )) {
        Err(BuilderError::AlreadyShowers) => {}
        _ => panic!("register_event does not return AlreadyShowers"),
    };
}

#[test]
fn test_builder_14() {
    let mut builder = SessionBuilder::new();
    let start = Timestamp {
        hour: 22,
        minute: 55,
    };
    builder
        .register_event(TimestampedEvent(start, Event::PeriodStart))
        .unwrap();
    builder
        .register_event(TimestampedEvent(
            start,
            Event::PeriodDate("12 Aug 2019".to_owned()),
        ))
        .unwrap();
    builder
        .register_event(TimestampedEvent(
            start,
            Event::Showers(vec![Shower::Perseids]),
        ))
        .unwrap();
    builder
        .register_event(TimestampedEvent(
            start,
            Event::AreasCounted(vec![(10, Area(14))]),
        ))
        .unwrap();
    builder
        .register_event(TimestampedEvent(start, Event::Clouds(0)))
        .unwrap();
    builder
        .register_event(TimestampedEvent(
            start,
            Event::Field(Field { ra: 2900, dec: 550 }),
        ))
        .unwrap();
    builder
        .register_event(TimestampedEvent(
            Timestamp {
                hour: 22,
                minute: 57,
            },
            Event::Meteor(Meteor {
                shower: Shower::Perseids,
                magnitude: 35,
            }),
        ))
        .unwrap();
    match builder.register_event(TimestampedEvent(
        Timestamp {
            hour: 22,
            minute: 57,
        },
        Event::Meteor(Meteor {
            shower: Shower::KappaCygnids,
            magnitude: 20,
        }),
    )) {
        Err(BuilderError::NotObservingShower) => {}
        _ => panic!("register_event does not return NotObservingShower"),
    };
}

#[test]
fn test_builder_15() {
    let mut builder = SessionBuilder::new();
    let start = Timestamp {
        hour: 22,
        minute: 55,
    };
    let end = Timestamp {
        hour: 1,
        minute: 20,
    };
    builder
        .register_event(TimestampedEvent(start, Event::PeriodStart))
        .unwrap();
    builder
        .register_event(TimestampedEvent(
            start,
            Event::PeriodDate("12 Aug 2019".to_owned()),
        ))
        .unwrap();
    builder
        .register_event(TimestampedEvent(
            start,
            Event::Showers(vec![Shower::Perseids]),
        ))
        .unwrap();
    builder
        .register_event(TimestampedEvent(start, Event::Clouds(0)))
        .unwrap();
    builder
        .register_event(TimestampedEvent(
            start,
            Event::Field(Field { ra: 2900, dec: 550 }),
        ))
        .unwrap();
    builder
        .register_event(TimestampedEvent(
            Timestamp {
                hour: 22,
                minute: 57,
            },
            Event::Meteor(Meteor {
                shower: Shower::Perseids,
                magnitude: 35,
            }),
        ))
        .unwrap();
    builder
        .register_event(TimestampedEvent(
            Timestamp {
                hour: 22,
                minute: 57,
            },
            Event::AreasCounted(vec![(10, Area(14))]),
        ))
        .unwrap();
    builder
        .register_event(TimestampedEvent(end, Event::PeriodEnd))
        .unwrap();

    match builder.into_session() {
        Err(BuilderError::LmInsufficientTeff) => {}
        _ => panic!("into_session does not return LmInsufficientTeff"),
    }
}

#[test]
fn test_builder_16() {
    let mut builder = SessionBuilder::new();
    let start = Timestamp {
        hour: 22,
        minute: 55,
    };
    let end = Timestamp {
        hour: 1,
        minute: 20,
    };
    builder
        .register_event(TimestampedEvent(start, Event::PeriodStart))
        .unwrap();
    builder
        .register_event(TimestampedEvent(
            start,
            Event::PeriodDate("12 Aug 2019".to_owned()),
        ))
        .unwrap();
    builder
        .register_event(TimestampedEvent(
            start,
            Event::AreasCounted(vec![(10, Area(14))]),
        ))
        .unwrap();
    builder
        .register_event(TimestampedEvent(
            start,
            Event::Showers(vec![Shower::Perseids]),
        ))
        .unwrap();
    builder
        .register_event(TimestampedEvent(
            start,
            Event::Field(Field { ra: 2900, dec: 550 }),
        ))
        .unwrap();
    builder
        .register_event(TimestampedEvent(
            Timestamp {
                hour: 22,
                minute: 57,
            },
            Event::Meteor(Meteor {
                shower: Shower::Perseids,
                magnitude: 35,
            }),
        ))
        .unwrap();
    builder
        .register_event(TimestampedEvent(
            Timestamp {
                hour: 22,
                minute: 57,
            },
            Event::Clouds(0),
        ))
        .unwrap();
    builder
        .register_event(TimestampedEvent(end, Event::PeriodEnd))
        .unwrap();

    match builder.into_session() {
        Err(BuilderError::FInsufficientTeff) => {}
        _ => panic!("into_session does not return FInsufficientTeff"),
    }
}

#[test]
fn test_builder_17() {
    let mut builder = SessionBuilder::new();
    let start = Timestamp {
        hour: 22,
        minute: 55,
    };
    let end = Timestamp {
        hour: 1,
        minute: 20,
    };
    builder
        .register_event(TimestampedEvent(start, Event::PeriodStart))
        .unwrap();
    builder
        .register_event(TimestampedEvent(
            start,
            Event::Showers(vec![Shower::Perseids]),
        ))
        .unwrap();
    builder
        .register_event(TimestampedEvent(
            start,
            Event::AreasCounted(vec![(10, Area(14))]),
        ))
        .unwrap();
    builder
        .register_event(TimestampedEvent(start, Event::Clouds(0)))
        .unwrap();
    builder
        .register_event(TimestampedEvent(
            start,
            Event::Field(Field { ra: 2900, dec: 550 }),
        ))
        .unwrap();
    builder
        .register_event(TimestampedEvent(
            Timestamp {
                hour: 22,
                minute: 57,
            },
            Event::Meteor(Meteor {
                shower: Shower::Perseids,
                magnitude: 35,
            }),
        ))
        .unwrap();
    builder
        .register_event(TimestampedEvent(end, Event::PeriodEnd))
        .unwrap();

    match builder.into_session() {
        Err(BuilderError::NoDate) => {}
        _ => panic!("into_session does not return NoDate"),
    };
}

#[test]
fn test_builder_18() {
    let mut builder = SessionBuilder::new();
    let start = Timestamp {
        hour: 22,
        minute: 55,
    };
    builder
        .register_event(TimestampedEvent(start, Event::PeriodStart))
        .unwrap();
    builder
        .register_event(TimestampedEvent(
            start,
            Event::Showers(vec![Shower::Perseids]),
        ))
        .unwrap();
    builder
        .register_event(TimestampedEvent(
            start,
            Event::PeriodDate("12 Aug 2019".to_owned()),
        ))
        .unwrap();
    match builder.register_event(TimestampedEvent(
        start,
        Event::PeriodDate("13 Aug 2019".to_owned()),
    )) {
        Err(BuilderError::AlreadyDate) => {}
        _ => panic!("register_event does not return AlreadyDate"),
    };
}
