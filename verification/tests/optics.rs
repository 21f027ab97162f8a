use microscope::exact::{Fraction, Quantity};
use microscope::objective::NikonObjective;
use microscope::optics::{OpticalModel, Optics, ParameterError};

fn fraction(num: u32, den: u32) -> Fraction {
    Fraction::new(num, den).unwrap()
}

fn single(q: &Quantity) -> f32 {
    (q.numerator() as f64 / q.denominator() as f64) as f32
}

fn double(q: &Quantity) -> f64 {
    q.numerator() as f64 / q.denominator() as f64
}

fn blue() -> Optics {
    Optics { objective: NikonObjective::Blue, wavelength: fraction(500, 1_000_000_000) }
}

#[test]
fn optics_calculate_resolution() {
    let optics: Optics = blue();
    assert_eq!(0.000_001_794_117_647, single(&optics.calculate_resolution()));
}

#[test]
fn optics_calculate_ideal_pixel_size() {
    let optics: Optics = blue();
    assert_eq!(0.000_035_882_352_94, single(&optics.calculate_ideal_pixel_size()));
}

#[test]
fn resolution_of_blue_is_exact() {
    let q = blue().calculate_resolution();
    assert_eq!(q.numerator(), 3_050_000);
    assert_eq!(q.denominator(), 1_700_000_000_000);
    assert!((double(&q) - 1.794117647e-6).abs() < 1e-15);
}

#[test]
fn ideal_pixel_size_of_blue_is_exact() {
    let q = blue().calculate_ideal_pixel_size();
    assert_eq!(q.numerator(), 122_000_000);
    assert_eq!(q.denominator(), 3_400_000_000_000);
    assert!((double(&q) - 3.58823529e-5).abs() < 1e-13);
}

#[test]
fn resolution_of_yellow_and_white() {
    let wavelength = fraction(500, 1_000_000_000);
    let yellow = Optics { objective: NikonObjective::Yellow, wavelength }.calculate_resolution();
    assert_eq!(yellow.numerator(), 3_050_000);
    assert_eq!(yellow.denominator(), 2_500_000_000_000);
    assert!((double(&yellow) - 1.22e-6).abs() < 1e-15);
    let white = Optics { objective: NikonObjective::White, wavelength }.calculate_resolution();
    assert_eq!(white.numerator(), 3_050_000);
    assert_eq!(white.denominator(), 1_700_000_000_000);
}

#[test]
fn ideal_pixel_size_of_yellow_and_white() {
    let wavelength = fraction(500, 1_000_000_000);
    let yellow =
        Optics { objective: NikonObjective::Yellow, wavelength }.calculate_ideal_pixel_size();
    assert!((double(&yellow) - 6.1e-6).abs() < 1e-15);
    let white =
        Optics { objective: NikonObjective::White, wavelength }.calculate_ideal_pixel_size();
    assert!((double(&white) - 8.970588235e-5).abs() < 1e-13);
}

#[test]
fn table_of_lenses() {
    let yellow = NikonObjective::Yellow.lens();
    assert_eq!((yellow.numerical_aperture.numerator(), yellow.numerical_aperture.denominator()), (25, 100));
    assert_eq!((yellow.magnification.numerator(), yellow.magnification.denominator()), (10, 1));
    let blue = NikonObjective::Blue.lens();
    assert_eq!((blue.numerical_aperture.numerator(), blue.numerical_aperture.denominator()), (17, 100));
    assert_eq!((blue.magnification.numerator(), blue.magnification.denominator()), (40, 1));
    let white = NikonObjective::White.lens();
    assert_eq!((white.numerical_aperture.numerator(), white.numerical_aperture.denominator()), (17, 100));
    assert_eq!((white.magnification.numerator(), white.magnification.denominator()), (100, 1));
}

#[test]
fn optics_getters_follow_the_table() {
    let optics = blue();
    let na = optics.get_numerical_aperture();
    let m = optics.get_magnification();
    assert_eq!((na.numerator(), na.denominator()), (17, 100));
    assert_eq!((m.numerator(), m.denominator()), (40, 1));
}

#[test]
fn pixel_size_is_half_the_magnified_resolution() {
    for objective in [NikonObjective::Yellow, NikonObjective::Blue, NikonObjective::White] {
        let optics = Optics { objective, wavelength: fraction(791, 1_250_000_000) };
        let r = optics.calculate_resolution();
        let p = optics.calculate_ideal_pixel_size();
        let m = optics.get_magnification();
        // p == r * m / 2, by cross products
        assert_eq!(
            p.numerator() * (r.denominator() * m.denominator() as u128 * 2),
            r.numerator() * m.numerator() as u128 * p.denominator()
        );
    }
}

#[test]
fn resolution_times_aperture_is_scaled_wavelength() {
    let wavelength = fraction(791, 1_250_000_000);
    let na = fraction(140, 100);
    let model = OpticalModel::new(na, wavelength, fraction(69, 10_000_000), fraction(60, 1), (544, 728))
        .unwrap();
    let r = model.calculate_resolution();
    // r * na == 61/100 * wavelength, by cross products
    assert_eq!(
        r.numerator() * na.numerator() as u128 * (100 * wavelength.denominator() as u128),
        61 * wavelength.numerator() as u128 * (r.denominator() * na.denominator() as u128)
    );
}

#[test]
fn smaller_aperture_resolves_less() {
    let wavelength = fraction(500, 1_000_000_000);
    let yellow = Optics { objective: NikonObjective::Yellow, wavelength }.calculate_resolution();
    let blue = Optics { objective: NikonObjective::Blue, wavelength }.calculate_resolution();
    // 0.17 < 0.25, so blue's resolved distance is the larger one
    assert!(blue.numerator() * yellow.denominator() > yellow.numerator() * blue.denominator());
}

#[test]
fn resolution_grows_without_bound() {
    let wavelength = fraction(500, 1_000_000_000);
    let mut last = 0.0_f64;
    for den in [1_u32, 1_000, 1_000_000, 1_000_000_000] {
        let model =
            OpticalModel::new(fraction(1, den), wavelength, fraction(1, 1), fraction(1, 1), (1, 1))
                .unwrap();
        let r = double(&model.calculate_resolution());
        assert!(r > last);
        last = r;
    }
    assert!((last - 305.0).abs() < 1e-9);
}

#[test]
fn model_of_direct_parameters() {
    let model = OpticalModel::new(
        fraction(17, 100),
        fraction(500, 1_000_000_000),
        fraction(69, 10_000_000),
        fraction(40, 1),
        (544, 728),
    )
    .unwrap();
    assert_eq!(model.numerical_aperture().numerator(), 17);
    assert_eq!(model.numerical_aperture().denominator(), 100);
    assert_eq!(model.wavelength().numerator(), 500);
    assert_eq!(model.wavelength().denominator(), 1_000_000_000);
    assert_eq!(model.pixel_size().numerator(), 69);
    assert_eq!(model.pixel_size().denominator(), 10_000_000);
    assert_eq!(model.magnification().numerator(), 40);
    assert_eq!(model.magnification().denominator(), 1);
    assert_eq!(model.field_of_view(), (544, 728));
    assert_eq!(0.000_001_794_117_647, single(&model.calculate_resolution()));
    assert_eq!(0.000_035_882_352_94, single(&model.calculate_ideal_pixel_size()));
}

#[test]
fn model_of_an_objective_agrees_with_optics() {
    let wavelength = fraction(500, 1_000_000_000);
    for objective in [NikonObjective::Yellow, NikonObjective::Blue, NikonObjective::White] {
        let model =
            OpticalModel::from_objective(objective, wavelength, fraction(69, 10_000_000), (544, 728))
                .unwrap();
        let optics = Optics { objective, wavelength };
        let (a, b) = (model.calculate_resolution(), optics.calculate_resolution());
        assert_eq!((a.numerator(), a.denominator()), (b.numerator(), b.denominator()));
        let (a, b) = (model.calculate_ideal_pixel_size(), optics.calculate_ideal_pixel_size());
        assert_eq!((a.numerator(), a.denominator()), (b.numerator(), b.denominator()));
    }
}

#[test]
fn model_refuses_zero_numerical_aperture() {
    let r = OpticalModel::new(fraction(0, 100), fraction(500, 1), fraction(1, 1), fraction(40, 1), (1, 1));
    assert_eq!(r.err(), Some(ParameterError::NumericalAperture));
}

#[test]
fn model_refuses_zero_wavelength() {
    let r = OpticalModel::new(fraction(17, 100), fraction(0, 1), fraction(1, 1), fraction(40, 1), (1, 1));
    assert_eq!(r.err(), Some(ParameterError::Wavelength));
    let r = OpticalModel::from_objective(NikonObjective::Blue, fraction(0, 7), fraction(1, 1), (1, 1));
    assert_eq!(r.err(), Some(ParameterError::Wavelength));
}

#[test]
fn model_refuses_zero_magnification() {
    let r = OpticalModel::new(fraction(17, 100), fraction(500, 1), fraction(1, 1), fraction(0, 1), (1, 1));
    assert_eq!(r.err(), Some(ParameterError::Magnification));
}

#[test]
fn model_names_the_first_refused_parameter() {
    let zero = fraction(0, 1);
    let one = fraction(1, 1);
    assert_eq!(OpticalModel::new(zero, zero, one, zero, (1, 1)).err(), Some(ParameterError::NumericalAperture));
    assert_eq!(OpticalModel::new(one, zero, one, zero, (1, 1)).err(), Some(ParameterError::Wavelength));
}

#[test]
fn model_accepts_a_zero_pixel_size() {
    let r = OpticalModel::new(fraction(1, 1), fraction(1, 1), fraction(0, 1), fraction(1, 1), (0, 0));
    assert!(r.is_ok());
}

#[test]
fn largest_terms_do_not_overflow() {
    let big = fraction(u32::MAX, u32::MAX);
    let model = OpticalModel::new(big, big, big, big, (u16::MAX, u16::MAX)).unwrap();
    let r = model.calculate_resolution();
    assert_eq!(r.numerator(), 61 * (u32::MAX as u128 * u32::MAX as u128));
    assert_eq!(r.denominator(), 100 * (u32::MAX as u128 * u32::MAX as u128));
    let p = model.calculate_ideal_pixel_size();
    assert_eq!(p.numerator(), 61 * (u32::MAX as u128 * u32::MAX as u128) * u32::MAX as u128);
    assert_eq!(p.denominator(), 100 * (u32::MAX as u128 * u32::MAX as u128) * u32::MAX as u128 * 2);
}
