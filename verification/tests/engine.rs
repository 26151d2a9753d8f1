use fiv::cmdline::Args;
use fiv::codecs::{CodecMetadata, Codecs, Generic};
use fiv::files::{Files, Navigate, State, TaskAction};
use fiv::image::{Image, ImageData, LinkRead, Mark};
use fiv::numeric::{DimensionsU32, Xu32, Yu32};
use fiv::orientation::Orientation;

fn metadata(width: u32, height: u32, orientation: Orientation) -> CodecMetadata {
    CodecMetadata {
        dimensions: DimensionsU32::new(Xu32::new(width), Yu32::new(height)),
        orientation,
        af_points: None,
    }
}

fn dummy_image(id: u64) -> Image {
    Image::new(
        id,
        format!("/images/{id}.bmp"),
        Codecs::Generic(Generic::default()),
        metadata(100, 50, Orientation::default()),
        None,
    )
}

fn state_with_images(preload: usize, count: u64) -> State {
    let mut state = State::new(preload);
    for id in 0..count {
        state.add(dummy_image(id));
    }
    state
}

fn pixels(width: u32, height: u32) -> ImageData {
    ImageData::builder(DimensionsU32::new(Xu32::new(width), Yu32::new(height)))
        .unwrap()
        .into_image_data()
}

fn args_with_preload(preload_count: u32) -> Args {
    Args {
        preload_count,
        ..Args::default()
    }
}

#[test]
fn preload_window_interleaves_around_cursor() {
    // Seven images, capacity three (preload two plus the cursor).
    let mut state = state_with_images(2, 7);
    state.navigate(Navigate::Next);
    state.navigate(Navigate::Next);
    state.navigate(Navigate::Next);
    assert_eq!(state.position, 3);
    // Interleaved order [3, 4, 2, 5, 1, ...] truncated to the capacity.
    assert_eq!(state.preload.state.load, vec![3, 4, 2]);
    // Nothing is resident yet, so the queue holds the window in order.
    let queued: Vec<usize> = state.preload.state.queue.iter().copied().collect();
    assert_eq!(queued, vec![3, 4, 2]);
}

#[test]
fn preload_window_determinism() {
    let build = || {
        let mut state = state_with_images(2, 7);
        state.navigate(Navigate::Next);
        state.navigate(Navigate::Next);
        state.navigate(Navigate::Next);
        (
            state.preload.state.load.clone(),
            state.preload.state.queue.iter().copied().collect::<Vec<usize>>(),
        )
    };
    assert_eq!(build(), build());
}

#[test]
fn workers_decode_in_window_order() {
    let mut state = state_with_images(2, 7);
    state.navigate(Navigate::Next);
    state.navigate(Navigate::Next);
    state.navigate(Navigate::Next);
    let first = state.preload.begin_load(&state.images).unwrap();
    let second = state.preload.begin_load(&state.images).unwrap();
    let third = state.preload.begin_load(&state.images).unwrap();
    assert_eq!((first, second, third), (3, 4, 2));
    assert!(state.preload.begin_load(&state.images).is_none());
}

#[test]
fn navigate_past_preload_unloads_what_left_the_window() {
    let mut state = state_with_images(2, 7);
    state.navigate(Navigate::Next);
    state.navigate(Navigate::Next);
    state.navigate(Navigate::Next);
    // Decode the whole working set {3, 4, 2}.
    for _ in 0..3 {
        let i = state.preload.begin_load(&state.images).unwrap();
        let kept = state
            .preload
            .finish_load(&mut state.images, i, Ok(pixels(100, 50)));
        assert!(kept);
    }
    assert!(state.images[3].loaded());
    assert!(state.images[4].loaded());
    assert!(state.images[2].loaded());

    // Four more steps forward: clamped at the last image.
    state.navigate(Navigate::Next);
    state.navigate(Navigate::Next);
    state.navigate(Navigate::Next);
    state.navigate(Navigate::Next);
    assert_eq!(state.position, 6);
    assert_eq!(state.preload.state.load, vec![6, 5, 4]);
    assert!(!state.images[0].loaded());
    assert!(!state.images[1].loaded());
    assert!(!state.images[2].loaded());
    assert!(!state.images[3].loaded());
}

#[test]
fn previous_at_start_stays_at_start() {
    let mut state = state_with_images(2, 3);
    assert_eq!(state.position, 0);
    state.navigate(Navigate::Previous);
    assert_eq!(state.position, 0);
}

#[test]
fn next_at_end_stays_at_end() {
    let mut state = state_with_images(2, 3);
    state.navigate(Navigate::Last);
    assert_eq!(state.position, 2);
    state.navigate(Navigate::Next);
    assert_eq!(state.position, 2);
}

#[test]
fn first_and_last_clamp_to_the_ends() {
    let mut state = state_with_images(2, 5);
    state.navigate(Navigate::Last);
    assert_eq!(state.position, 4);
    state.navigate(Navigate::First);
    assert_eq!(state.position, 0);
}

#[test]
fn empty_list_current_is_default_and_navigation_is_a_no_op() {
    let mut state = State::new(2);
    let current = state.current();
    assert_eq!(current.image, None);
    assert_eq!(current.filename, "");
    assert_eq!(current.position, 0);
    assert_eq!(current.total, 0);
    assert_eq!(current.mark, None);
    state.navigate(Navigate::Next);
    assert_eq!(state.position, 0);
    state.navigate(Navigate::Last);
    assert_eq!(state.position, 0);
    state.navigate(Navigate::Previous);
    assert_eq!(state.position, 0);
}

#[test]
fn cursor_at_end_fills_window_backwards() {
    let mut state = state_with_images(3, 6);
    state.navigate(Navigate::Last);
    assert_eq!(state.preload.state.load, vec![5, 4, 3, 2]);
}

#[test]
fn full_capacity_keeps_every_image_resident() {
    let mut state = state_with_images(9, 4);
    // Everything is intended.
    let mut load = state.preload.state.load.clone();
    load.sort();
    assert_eq!(load, vec![0, 1, 2, 3]);
    // Decode everything.
    while let Some(i) = state.preload.begin_load(&state.images) {
        assert!(state
            .preload
            .finish_load(&mut state.images, i, Ok(pixels(100, 50))));
    }
    for i in 0..4 {
        assert!(state.images[i].loaded());
    }
    // Navigation never unloads anything while capacity covers the list.
    state.navigate(Navigate::Last);
    state.navigate(Navigate::First);
    state.navigate(Navigate::Next);
    for i in 0..4 {
        assert!(state.images[i].loaded());
    }
}

#[test]
fn failed_decode_installs_the_sentinel_and_counts_as_loaded() {
    let mut state = state_with_images(2, 1);
    let i = state.preload.begin_load(&state.images).unwrap();
    assert_eq!(i, 0);
    let kept = state.preload.finish_load(
        &mut state.images,
        i,
        Err(fiv::codecs::CodecError::DecodeFailed),
    );
    assert!(kept);
    assert!(state.images[0].loaded());
    assert!(state.images[0].data.as_ref().unwrap().data.is_none());
    assert_eq!(state.images[0].data.as_ref().unwrap().width, -1);
}

#[test]
fn empty_start_reports_failure() {
    let mut files = Files::new(args_with_preload(100));
    assert!(files.starting());
    files.discovery_complete();
    assert!(!files.starting());
    assert!(files.start_ready);
    assert!(!files.start());
}

#[test]
fn single_image_lifecycle() {
    // One 100x50 image carrying EXIF orientation 6 (a quarter turn).
    let mut files = Files::new(args_with_preload(100));
    let image = Image::new(
        0,
        String::from("foo.jpg"),
        Codecs::Generic(Generic::default()),
        metadata(100, 50, Orientation::from_exif(6).unwrap()),
        None,
    );
    assert!(files.add(image));
    assert!(files.start_ready);
    assert!(files.start());
    let current = files.current();
    assert_eq!(current.position, 1);
    assert_eq!(current.total, 1);
    assert_eq!(current.filename, "foo.jpg");
    assert_eq!(
        files.state.images[0].orientation(),
        Orientation::from_exif(6).unwrap()
    );

    let i = files.begin_load().unwrap();
    assert_eq!(i, 0);
    let data = pixels(100, 50);
    assert_eq!(data.stride, 400);
    assert_eq!(data.height, 50);
    assert_eq!(data.data.as_ref().unwrap().len(), 100 * 50);
    let ui = files.finish_load(i, Ok(data));
    assert!(ui);
    assert!(files.image_loaded);
    assert!(files.image_ready);
    assert!(files.state.images[0].loaded());
}

#[test]
fn add_after_shutdown_is_a_no_op() {
    let mut files = Files::new(args_with_preload(2));
    assert!(files.add(dummy_image(0)));
    assert!(files.shutdown());
    assert!(!files.shutdown());
    assert!(!files.add(dummy_image(1)));
    assert_eq!(files.state.images.len(), 1);
}

#[test]
fn shutdown_drains_work_and_unloads_residents() {
    let mut files = Files::new(args_with_preload(2));
    for id in 0..5 {
        files.add(dummy_image(id));
    }
    // Make the current image resident, then begin one more decode.
    let first = files.begin_load().unwrap();
    assert!(files.finish_load(first, Ok(pixels(100, 50))));
    let in_flight = files.begin_load().unwrap();

    assert!(files.shutdown());
    // The queue and the working set are gone; residents are unloaded.
    assert!(files.state.preload.state.queue.is_empty());
    assert!(files.state.preload.state.load.is_empty());
    for i in 0..5 {
        assert!(!files.state.images[i].loaded());
    }
    // The worker finishes its one in-flight decode, which is dropped.
    let kept = files.finish_load(in_flight, Ok(pixels(100, 50)));
    assert!(!kept);
    assert!(!files.state.images[in_flight].loaded());
    // Further work requests and updates are no-ops.
    assert!(files.begin_load().is_none());
}

#[test]
fn navigation_after_shutdown_schedules_no_work() {
    let mut files = Files::new(args_with_preload(2));
    for id in 0..5 {
        files.add(dummy_image(id));
    }
    let first = files.begin_load().unwrap();
    assert!(files.finish_load(first, Ok(pixels(100, 50))));
    assert!(files.shutdown());
    // The cursor still moves, but the preload engine stays drained: no
    // window is recomputed, nothing is queued, nothing becomes resident.
    files.navigate(Navigate::Next);
    assert_eq!(files.state.position, 1);
    assert!(files.state.preload.state.load.is_empty());
    assert!(files.state.preload.state.queue.is_empty());
    assert!(files.begin_load().is_none());
    for i in 0..5 {
        assert!(!files.state.images[i].loaded());
    }
}

#[test]
fn orientation_composes_on_the_current_image() {
    let mut files = Files::new(args_with_preload(2));
    files.add(dummy_image(0));
    files.orientation(fiv::orientation::Rotate::Rotate90, false);
    files.orientation(fiv::orientation::Rotate::Rotate90, true);
    assert_eq!(
        files.state.images[0].orientation(),
        Orientation::new(fiv::orientation::Rotate::Rotate180, true)
    );
}

#[test]
fn mark_task_queueing_and_cursor_scoping() {
    let mut args = args_with_preload(2);
    args.mark_directory = Some(String::from("/tmp/m"));
    let mut files = Files::new(args);
    files.add(dummy_image(0));
    files.add(dummy_image(1));

    // A mark command queues an unconditional task.
    files.mark(Mark::SetMark);
    let (task, run) = files.seq_pop().unwrap();
    assert!(run);
    assert!(task.always);
    assert_eq!(task.action, TaskAction::WriteMark(Mark::SetMark));

    // Navigation queues a cursor-scoped refresh; once the cursor moves
    // on, the stale task is dropped.
    files.navigate(Navigate::Next);
    files.navigate(Navigate::Previous);
    let (task, run) = files.seq_pop().unwrap();
    assert_eq!(task.action, TaskAction::RefreshMark);
    assert!(!task.always);
    assert!(!run, "the snapshot was taken at position 2, cursor is at 1");
    let (task, run) = files.seq_pop().unwrap();
    assert_eq!(task.action, TaskAction::RefreshMark);
    assert!(run);
    assert!(files.seq_after(&task));
    assert!(files.seq_pop().is_none());
}

#[test]
fn mark_flow_round_trip_through_link_reads() {
    let mut image = Image::new(
        7,
        String::from("/a/b/c.jpg"),
        Codecs::Generic(Generic::default()),
        metadata(100, 50, Orientation::default()),
        fiv::image::mark_link(
            Some(&String::from("/tmp/m")),
            &String::from("/a/b/c.jpg"),
            &String::from("c.jpg"),
        ),
    );
    let link = image.mark_link.clone().unwrap();
    assert_eq!(link.name, "/tmp/m/c.jpg");
    assert_eq!(link.target, "../../a/b/c.jpg");

    // Set: the link is written, a re-read observes "marked".
    assert!(fiv::image::mark_desired(Mark::SetMark, Some(false)));
    image.refresh_mark(&LinkRead::Found(link.target.clone()));
    assert_eq!(image.marked(), Some(true));

    // Toggle from "marked": the link is removed, a re-read observes
    // "unmarked".
    assert!(!fiv::image::mark_desired(Mark::Toggle, Some(true)));
    image.refresh_mark(&LinkRead::NotFound);
    assert_eq!(image.marked(), Some(false));

    // Unset always wants the link gone; a foreign target observes as
    // unknown; a read failure observes as unknown.
    assert!(!fiv::image::mark_desired(Mark::Unset, None));
    image.refresh_mark(&LinkRead::Found(String::from("../../other.jpg")));
    assert_eq!(image.marked(), None);
    image.refresh_mark(&LinkRead::Failed);
    assert_eq!(image.marked(), None);
}
