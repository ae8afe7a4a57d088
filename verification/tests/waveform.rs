use syntherklaas::waveform::WaveShape;

#[test]
fn from_str_reads_each_name() {
    assert_eq!(WaveShape::from_str("sine"), Some(WaveShape::Sine));
    assert_eq!(WaveShape::from_str("square"), Some(WaveShape::Square));
    assert_eq!(WaveShape::from_str("triangle"), Some(WaveShape::Triangle));
    assert_eq!(WaveShape::from_str("sawtooth"), Some(WaveShape::Sawtooth));
}

#[test]
fn from_str_ignores_case() {
    assert_eq!(WaveShape::from_str("SINE"), Some(WaveShape::Sine));
    assert_eq!(WaveShape::from_str("Square"), Some(WaveShape::Square));
    assert_eq!(WaveShape::from_str("TriAngle"), Some(WaveShape::Triangle));
    assert_eq!(WaveShape::from_str("SAWTOOTH"), Some(WaveShape::Sawtooth));
}

#[test]
fn from_str_rejects_other_names() {
    assert_eq!(WaveShape::from_str(""), None);
    assert_eq!(WaveShape::from_str("saw"), None);
    assert_eq!(WaveShape::from_str(" sine"), None);
    assert_eq!(WaveShape::from_str("noise"), None);
}

#[test]
fn from_lowercase_is_exact() {
    assert_eq!(WaveShape::from_lowercase("triangle"), Some(WaveShape::Triangle));
    assert_eq!(WaveShape::from_lowercase("Triangle"), None);
}

#[test]
fn shapes_cycle_in_four_steps() {
    let shapes = [WaveShape::Sine, WaveShape::Square, WaveShape::Triangle, WaveShape::Sawtooth];
    for s in shapes {
        assert_eq!(s.next().prev(), s);
        assert_eq!(s.prev().next(), s);
        assert_eq!(s.next().next().next().next(), s);
    }
    assert_eq!(WaveShape::Sine.next(), WaveShape::Square);
    assert_eq!(WaveShape::Sawtooth.next(), WaveShape::Sine);
    assert_eq!(WaveShape::Sine.prev(), WaveShape::Sawtooth);
}
