use alovak::DriverOp;
use alovak::Error;
use alovak::collect_image_views;
use alovak::plan_image_views;
use alovak::release_partial_views;

#[test]
fn one_request_per_image_with_the_fixed_policy() {
    let images = vec![100, 101];
    let requests = plan_image_views(&images, 44);
    assert_eq!(requests.len(), 2);
    for (i, request) in requests.iter().enumerate() {
        assert_eq!(request.image, images[i]);
        assert_eq!(request.format, 44);
        assert_eq!(request.view_type, 1);
        assert_eq!(request.aspect_mask, 1);
        assert_eq!(request.level_count, 1);
        assert_eq!(request.layer_count, 1);
    }
}

#[test]
fn all_views_collected_in_image_order() {
    let results = vec![Ok(200), Ok(201), Ok(202)];
    let handles = collect_image_views(&results).unwrap();
    assert_eq!(handles, vec![200, 201, 202]);
}

#[test]
fn first_failure_wins_and_partial_views_are_reported() {
    let results = vec![Ok(200), Err(-9), Err(-11)];
    let failure = collect_image_views(&results).unwrap_err();
    assert_eq!(failure.error, Error::ImageViewCreationFailed(-9));
    assert_eq!(failure.created, vec![200]);
}

#[test]
fn failure_on_the_first_view_creates_nothing() {
    let results = vec![Err(-9), Ok(201)];
    let failure = collect_image_views(&results).unwrap_err();
    assert_eq!(failure.error, Error::ImageViewCreationFailed(-9));
    assert!(failure.created.is_empty());
}

#[test]
fn partial_views_are_released_newest_first() {
    let created = vec![200, 201, 202];
    let ops = release_partial_views(&created);
    assert_eq!(
        ops,
        vec![
            DriverOp::DestroyImageView(202),
            DriverOp::DestroyImageView(201),
            DriverOp::DestroyImageView(200),
        ]
    );
}
