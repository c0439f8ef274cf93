use nlmeans::denoiser::Denoiser;
use nlmeans::errors::DenoiseError;
use nlmeans::geometry::{gaussian_plan, window_centers, GaussianPlan};
use nlmeans::img::Img;
use nlmeans::patch::{compare_samples, similarity_bits, CompareJob};
use nlmeans::rgb::Rgb;

fn rgb_of(r: f32, g: f32, b: f32) -> Rgb {
    Rgb { r: r.to_bits(), g: g.to_bits(), b: b.to_bits() }
}

fn channels_of(p: Rgb) -> [f32; 3] {
    [f32::from_bits(p.r), f32::from_bits(p.g), f32::from_bits(p.b)]
}

fn flat_image(width: usize, height: usize, r: f32, g: f32, b: f32) -> Img {
    Img::filled(width, height, rgb_of(r, g, b)).unwrap()
}

fn normal_pdf(x: f64, sigma: f64) -> f64 {
    let norm = 1.0 / (sigma * (2.0 * std::f64::consts::PI).sqrt());
    norm * (-x * x / (2.0 * sigma * sigma)).exp()
}

/// The full non-local-means pipeline: the library does the validation,
/// padding, geometry and output assembly; this driver evaluates the float
/// formulas (Gaussian density, exponential weighting, weighted average) the
/// way an application does.
fn denoise(
    img: &Img,
    sample_radius: usize,
    search_radius: usize,
    filter_param: f32,
) -> Result<Img, DenoiseError> {
    let mut den = Denoiser::new(img, sample_radius, search_radius, filter_param.to_bits())?;
    let offset = den.padding_offset();
    let search_size = 2 * search_radius + 1;
    let gauss: Vec<f32> = match gaussian_plan(search_radius) {
        GaussianPlan::SingleCell(bits) => vec![f32::from_bits(bits)],
        GaussianPlan::Distances(sq) => sq
            .iter()
            .map(|&d| normal_pdf((d as f64).sqrt(), search_radius as f64) as f32)
            .collect(),
    };
    let sample_size = (2 * sample_radius + 1) as f32;
    let fp = (filter_param / 255.0) * sample_size;
    let fp2inv = 1.0 / (fp * fp);
    for y in 0..img.height {
        for x in 0..img.width {
            let px = x + offset;
            let py = y + offset;
            let centers = window_centers(px, py, search_radius);
            let mut weights = vec![0f32; search_size * search_size];
            let mut q_acc = 0f32;
            for (k, &(cx, cy)) in centers.iter().enumerate() {
                let job = compare_samples(&den.padded, px, py, cx, cy, sample_radius);
                let exp_bits = match &job {
                    CompareJob::Identical => 0,
                    CompareJob::Patches { a, b } => {
                        let mut sum_of_squares = 0f32;
                        for (pa, pb) in a.iter().zip(b.iter()) {
                            let ca = channels_of(*pa);
                            let cb = channels_of(*pb);
                            for i in 0..3 {
                                let diff = ca[i] - cb[i];
                                sum_of_squares += diff * diff;
                            }
                        }
                        std::f32::consts::E.powf(-sum_of_squares * fp2inv).to_bits()
                    }
                };
                let q = gauss[k] * f32::from_bits(similarity_bits(&job, exp_bits));
                weights[k] = q;
                q_acc += q;
            }
            let mut acc = [0f32; 3];
            for (k, &(cx, cy)) in centers.iter().enumerate() {
                let p = den.padded.get(cx, cy);
                let c = channels_of(p);
                for i in 0..3 {
                    acc[i] += c[i] * weights[k];
                }
            }
            den.push_pixel(
                (acc[0] / q_acc).to_bits(),
                (acc[1] / q_acc).to_bits(),
                (acc[2] / q_acc).to_bits(),
            )?;
        }
    }
    Ok(den.finish())
}

fn assert_images_close(a: &Img, b: &Img, tolerance: f32) {
    assert_eq!(a.width, b.width);
    assert_eq!(a.height, b.height);
    for y in 0..a.height {
        for x in 0..a.width {
            let ca = channels_of(a.get(x, y));
            let cb = channels_of(b.get(x, y));
            for i in 0..3 {
                assert!(
                    (ca[i] - cb[i]).abs() <= tolerance,
                    "pixel ({}, {}) channel {}: {} vs {}",
                    x,
                    y,
                    i,
                    ca[i],
                    cb[i]
                );
            }
        }
    }
}

#[test]
fn four_by_four_half_gray_unchanged() {
    let img = flat_image(4, 4, 0.5, 0.5, 0.5);
    let out = denoise(&img, 1, 1, 20.0).unwrap();
    assert_images_close(&out, &img, 1e-5);
}

#[test]
fn flat_image_is_fixed_point() {
    let img = flat_image(5, 3, 0.2, 0.55, 0.8);
    let out = denoise(&img, 1, 2, 15.0).unwrap();
    assert_images_close(&out, &img, 1e-5);
}

#[test]
fn degenerate_search_window_returns_input() {
    let mut img = flat_image(3, 3, 0.0, 0.0, 0.0);
    for y in 0..3 {
        for x in 0..3 {
            let v = (y * 3 + x) as f32 / 10.0;
            img.set_pixel(x, y, rgb_of(v, 1.0 - v, v * v));
        }
    }
    let out = denoise(&img, 2, 0, 7.5).unwrap();
    assert_images_close(&out, &img, 1e-5);
    let out2 = denoise(&img, 0, 0, 123.0).unwrap();
    assert_images_close(&out2, &img, 1e-5);
}

#[test]
fn zero_filter_param_rejected() {
    let img = flat_image(4, 4, 0.5, 0.5, 0.5);
    assert!(matches!(denoise(&img, 1, 1, 0.0), Err(DenoiseError::InvalidParameter)));
}

#[test]
fn nan_filter_param_rejected() {
    let img = flat_image(4, 4, 0.5, 0.5, 0.5);
    assert!(matches!(denoise(&img, 1, 1, f32::NAN), Err(DenoiseError::InvalidParameter)));
}

#[test]
fn negative_filter_param_rejected() {
    let img = flat_image(4, 4, 0.5, 0.5, 0.5);
    assert!(matches!(denoise(&img, 1, 1, -3.5), Err(DenoiseError::InvalidParameter)));
}

fn noisy_image(width: usize, height: usize, amplitude: f32) -> Img {
    let mut img = flat_image(width, height, 0.0, 0.0, 0.0);
    let mut seed: u32 = 0x2545_1505;
    let mut next = move || {
        seed = seed.wrapping_mul(1103515245).wrapping_add(12345);
        ((seed >> 16) & 0x7fff) as f32 / 32767.0
    };
    for y in 0..height {
        for x in 0..width {
            let n = |u: f32| (0.5 + amplitude * (u - 0.5)).clamp(0.0, 1.0);
            img.set_pixel(x, y, rgb_of(n(next()), n(next()), n(next())));
        }
    }
    img
}

fn red_channel_variance(img: &Img) -> f64 {
    let mut sum = 0f64;
    let mut count = 0f64;
    for y in 0..img.height {
        for x in 0..img.width {
            sum += f32::from_bits(img.get(x, y).r) as f64;
            count += 1.0;
        }
    }
    let mean = sum / count;
    let mut var = 0f64;
    for y in 0..img.height {
        for x in 0..img.width {
            let d = f32::from_bits(img.get(x, y).r) as f64 - mean;
            var += d * d;
        }
    }
    var / count
}

#[test]
fn dimensions_preserved() {
    let img = noisy_image(7, 5, 0.4);
    let out = denoise(&img, 1, 2, 25.0).unwrap();
    assert_eq!(out.width, img.width);
    assert_eq!(out.height, img.height);
}

#[test]
fn output_channels_in_unit_range() {
    let mut img = noisy_image(6, 6, 0.9);
    img.set_pixel(0, 0, rgb_of(0.0, 1.0, 0.0));
    img.set_pixel(5, 5, rgb_of(1.0, 0.0, 1.0));
    let out = denoise(&img, 1, 2, 30.0).unwrap();
    for y in 0..out.height {
        for x in 0..out.width {
            for c in channels_of(out.get(x, y)) {
                assert!((0.0..=1.0).contains(&c), "channel {} out of range", c);
            }
        }
    }
}

// The documented border policy is plain zero padding: with the filtering
// parameter pushed so high that every candidate weighs fully, pixels near the
// border average in the black padding and come out darker, while interior
// pixels whose search window stays inside the image are untouched.
#[test]
fn zero_padding_darkens_border_under_extreme_filtering() {
    let img = flat_image(4, 4, 1.0, 1.0, 1.0);
    let out = denoise(&img, 1, 1, 1.0e6).unwrap();
    let interior = f32::from_bits(out.get(1, 1).r);
    let corner = f32::from_bits(out.get(0, 0).r);
    assert!((interior - 1.0).abs() <= 1e-4, "interior changed: {}", interior);
    assert!(corner < 0.9, "corner not darkened: {}", corner);
}

#[test]
fn stronger_filtering_does_not_increase_variance() {
    let img = noisy_image(8, 8, 0.4);
    let gentle = denoise(&img, 1, 2, 5.0).unwrap();
    let strong = denoise(&img, 1, 2, 40.0).unwrap();
    let var_gentle = red_channel_variance(&gentle);
    let var_strong = red_channel_variance(&strong);
    assert!(
        var_strong <= var_gentle + 1e-9,
        "variance grew from {} to {}",
        var_gentle,
        var_strong
    );
}
