use delay_timer::prelude::{CandyCron, CandyCronStr, CandyFrequency, TaskBuilder};
use delay_timer::timer::task::CronExpressionCache;
use delay_timer::utils::convenience::functions::{
    create_default_delay_task_handler, create_delay_task_handler,
};
use delay_timer::utils::convenience::MyUnit;
use std::ops::Deref;

#[test]
fn test_cron_candy() {
    let mut s: String;

    s = <CandyCron as Into<CandyCronStr>>::into(CandyCron::Daily).0;
    assert_eq!(s, "@daily");

    s = <CandyCron as Into<CandyCronStr>>::into(CandyCron::Yearly).0;
    assert_eq!(s, "@yearly");

    s = <CandyCron as Into<CandyCronStr>>::into(CandyCron::Secondly).0;

    assert_eq!(s, "@secondly");
}

struct CustomizationCandyCron(i32);

#[allow(clippy::from_over_into)]
impl Into<CandyCronStr> for CustomizationCandyCron {
    fn into(self) -> CandyCronStr {
        let s = match self.0 {
            0 => "1 1 1 1 1 1 1",
            1 => "0 59 23 18 11 3 2100",
            _ => "* * * * * * *",
        };
        CandyCronStr(s.to_owned())
    }
}

#[test]
fn test_customization_cron_candy() {
    let mut candy_cron_str: CandyCronStr;

    candy_cron_str = CustomizationCandyCron(0).into();
    assert_eq!(
        <CandyCronStr as Deref>::deref(&candy_cron_str),
        "1 1 1 1 1 1 1"
    );

    candy_cron_str = CustomizationCandyCron(1).into();
    assert_eq!(candy_cron_str.deref(), "0 59 23 18 11 3 2100");

    candy_cron_str = CustomizationCandyCron(999).into();
    assert_eq!(&*candy_cron_str, "* * * * * * *");
}

#[test]
fn candy_expressions_of_every_candy() {
    let all = [
        (CandyCron::Secondly, "@secondly"),
        (CandyCron::Minutely, "@minutely"),
        (CandyCron::Hourly, "@hourly"),
        (CandyCron::Daily, "@daily"),
        (CandyCron::Weekly, "@weekly"),
        (CandyCron::Monthly, "@monthly"),
        (CandyCron::Yearly, "@yearly"),
    ];
    for (candy, expected) in all {
        let s: CandyCronStr = candy.into();
        assert_eq!(&*s, expected);
    }
}

#[test]
fn candy_frequency_sets_the_builder() {
    let mut cache = CronExpressionCache::new();
    let mut builder = TaskBuilder::default();
    builder.set_frequency_by_candy(CandyFrequency::CountDown(5, CandyCron::Minutely));
    let mut task = builder.spawn_routine(|| (), &mut cache).unwrap();
    for _ in 1..5 {
        assert!(task.down_count_and_set_vaild());
    }
    assert!(!task.down_count_and_set_vaild());

    builder.set_frequency_by_candy(CandyFrequency::Repeated(CustomizationCandyCron(1)));
    assert!(builder.spawn_routine(|| (), &mut cache).is_ok());

    builder.set_frequency_by_candy(CandyFrequency::Once(CandyCron::Hourly));
    let mut task = builder.spawn_routine(|| (), &mut cache).unwrap();
    assert!(!task.down_count_and_set_vaild());
}

#[test]
fn default_handlers_quit_quietly() {
    assert!(create_default_delay_task_handler().quit().is_ok());
    assert!(create_delay_task_handler(MyUnit).quit().is_ok());
}
