use facial_anim::error::{Error, SG_Error};
use facial_anim::format::SG_SampleRate;

#[test]
fn rates_round_trip() {
    let all = [
        SG_SampleRate::SG_RATE_8KHZ,
        SG_SampleRate::SG_RATE_12KHZ,
        SG_SampleRate::SG_RATE_16KHZ,
        SG_SampleRate::SG_RATE_24KHZ,
        SG_SampleRate::SG_RATE_32KHZ,
        SG_SampleRate::SG_RATE_48KHZ,
    ];
    for r in all {
        assert_eq!(SG_SampleRate::from_rate(r.to_rate()), Some(r));
    }
    assert_eq!(SG_SampleRate::SG_RATE_24KHZ.to_rate(), 24000);
}

#[test]
fn unsupported_rate_is_none() {
    assert_eq!(SG_SampleRate::from_rate(44100), None);
    assert_eq!(SG_SampleRate::from_rate(0), None);
    assert_eq!(SG_SampleRate::from_rate(-16000), None);
}

#[test]
fn status_to_result() {
    assert_eq!(SG_Error::SG_ERROR_OK.into_result(), Ok(()));
    assert_eq!(
        SG_Error::SG_ERROR_ENGINE(7).into_result(),
        Err(Error(SG_Error::SG_ERROR_ENGINE(7)))
    );
    let e = Error::from(SG_Error::SG_ERROR_INVALID_ANIMATION_NODE);
    assert_eq!(e.code(), SG_Error::SG_ERROR_INVALID_ANIMATION_NODE);
    assert!(!e.is_ok());
    assert!(Error(SG_Error::SG_ERROR_OK).is_ok());
}
