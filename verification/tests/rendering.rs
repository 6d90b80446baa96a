use mush::application::ResizeEvent;
use mush::plugins::rendering::flush_render_system;
use mush::plugins::rendering::init_render_schedule;
use mush::plugins::rendering::reconfigure_device_on_resize_system;
use mush::plugins::rendering::AspectRatio;
use mush::plugins::rendering::BackendAction;
use mush::plugins::rendering::Camera;
use mush::plugins::events::CommandAggregator;
use mush::plugins::rendering::CommandBufferFinishedEvent;
use mush::plugins::rendering::FramePhase;
use mush::plugins::rendering::FrameRun;
use mush::plugins::rendering::RenderSchedule;
use mush::plugins::rendering::RenderStage;
use mush::plugins::rendering::ResizeError;
use mush::plugins::events::ResizeInbox;
use mush::plugins::rendering::SystemEntry;
use mush::plugins::rendering::WgpuConfig;
use mush::plugins::rendering::FLUSH_RENDER_SYSTEM;
use mush::plugins::rendering::PREPARE_RENDER_SYSTEM;
use mush::plugins::rendering::RECONFIGURE_DEVICE_ON_RESIZE_SYSTEM;
use mush::plugins::sprites::SpritePlugin;
use mush::plugins::sprites::DRAW_SPRITES_SYSTEM;
use mush::plugins::Plugin;

fn camera(output: Option<&'static str>) -> Camera<&'static str> {
    Camera { aspect: AspectRatio { width: 4, height: 3 }, output }
}

/// The actions written out: the submitted tickets, or the presented surface.
fn steps(actions: Vec<BackendAction<&'static str>>) -> Vec<Result<Vec<u64>, &'static str>> {
    actions
        .into_iter()
        .map(|action| match action {
            BackendAction::Submit(buffers) => Ok(buffers.iter().map(|buffer| buffer.0).collect()),
            BackendAction::Present(surface) => Err(surface),
        })
        .collect()
}

fn systems(order: &[SystemEntry]) -> Vec<u32> {
    order.iter().map(|entry| entry.system).collect()
}

#[test]
fn buffers_are_submitted_in_the_order_in_which_they_were_sent() {
    let a = CommandBufferFinishedEvent(10);
    let b = CommandBufferFinishedEvent(7);
    let c = CommandBufferFinishedEvent(42);
    let mut commands = CommandAggregator::new();
    assert_eq!(commands.send(a), Ok(()));
    assert_eq!(commands.send(b), Ok(()));
    assert_eq!(commands.send(c), Ok(()));
    let mut cameras: Vec<Camera<&'static str>> = Vec::new();
    let actions = flush_render_system(&mut commands, &mut cameras);
    assert_eq!(steps(actions), vec![Ok(vec![10, 7, 42])]);
}

#[test]
fn a_drained_aggregator_yields_nothing_until_something_is_sent() {
    let mut commands = CommandAggregator::new();
    assert_eq!(commands.send(CommandBufferFinishedEvent(1)), Ok(()));
    assert_eq!(commands.send(CommandBufferFinishedEvent(2)), Ok(()));
    assert_eq!(
        commands.drain(),
        vec![CommandBufferFinishedEvent(1), CommandBufferFinishedEvent(2)]
    );
    assert_eq!(commands.drain(), vec![]);
    assert_eq!(commands.drain(), vec![]);
    assert_eq!(commands.send(CommandBufferFinishedEvent(3)), Ok(()));
    assert_eq!(commands.drain(), vec![CommandBufferFinishedEvent(3)]);
    assert_eq!(commands.drain(), vec![]);
}

#[test]
fn a_new_aggregator_is_empty() {
    let mut commands = CommandAggregator::new();
    assert_eq!(commands.drain(), vec![]);
}

#[test]
fn equal_buffers_are_all_kept() {
    let mut commands = CommandAggregator::new();
    for _ in 0..3 {
        assert_eq!(commands.send(CommandBufferFinishedEvent(5)), Ok(()));
    }
    assert_eq!(commands.drain(), vec![CommandBufferFinishedEvent(5); 3]);
}

#[test]
fn many_buffers_keep_their_order() {
    let mut commands = CommandAggregator::new();
    for ticket in 0..1000u64 {
        assert_eq!(commands.send(CommandBufferFinishedEvent(ticket * 7 % 1000)), Ok(()));
    }
    let expected: Vec<CommandBufferFinishedEvent> =
        (0..1000u64).map(|ticket| CommandBufferFinishedEvent(ticket * 7 % 1000)).collect();
    assert_eq!(commands.drain(), expected);
}

#[test]
fn a_resize_sets_the_configuration_and_the_aspect_ratio() {
    let mut resizes = ResizeInbox::new();
    assert_eq!(resizes.send(ResizeEvent { width: 800, height: 450 }), Ok(()));
    let mut config = WgpuConfig { width: 640, height: 480 };
    let mut cameras = vec![camera(None), camera(Some("kept"))];
    let applied = reconfigure_device_on_resize_system(&mut resizes, &mut config, &mut cameras);
    assert_eq!(applied, Ok(vec![ResizeEvent { width: 800, height: 450 }]));
    assert_eq!(config, WgpuConfig { width: 800, height: 450 });
    for camera in &cameras {
        assert_eq!(camera.aspect, AspectRatio { width: 800, height: 450 });
        let ratio = camera.aspect.width as f32 / camera.aspect.height as f32;
        assert!((ratio - 1.7778).abs() < 1e-4);
    }
    assert_eq!(cameras[0].output, None);
    assert_eq!(cameras[1].output, Some("kept"));
}

#[test]
fn all_pending_resizes_are_taken_and_the_last_one_stays() {
    let mut resizes = ResizeInbox::new();
    let records = vec![
        ResizeEvent { width: 100, height: 50 },
        ResizeEvent { width: 1920, height: 1080 },
        ResizeEvent { width: 300, height: 200 },
    ];
    for record in &records {
        assert_eq!(resizes.send(*record), Ok(()));
    }
    let mut config = WgpuConfig { width: 1, height: 1 };
    let mut cameras = vec![camera(None)];
    let applied = reconfigure_device_on_resize_system(&mut resizes, &mut config, &mut cameras);
    assert_eq!(applied, Ok(records));
    assert_eq!(config, WgpuConfig { width: 300, height: 200 });
    assert_eq!(cameras[0].aspect, AspectRatio { width: 300, height: 200 });
    let again = reconfigure_device_on_resize_system(&mut resizes, &mut config, &mut cameras);
    assert_eq!(again, Ok(vec![]));
    assert_eq!(config, WgpuConfig { width: 300, height: 200 });
}

#[test]
fn a_frame_without_resizes_changes_nothing() {
    let mut resizes = ResizeInbox::new();
    let mut config = WgpuConfig { width: 640, height: 480 };
    let mut cameras = vec![camera(Some("surface"))];
    let applied = reconfigure_device_on_resize_system(&mut resizes, &mut config, &mut cameras);
    assert_eq!(applied, Ok(vec![]));
    assert_eq!(config, WgpuConfig { width: 640, height: 480 });
    assert_eq!(cameras[0].aspect, AspectRatio { width: 4, height: 3 });
    assert_eq!(cameras[0].output, Some("surface"));
}

#[test]
fn a_resize_without_height_fails_at_once() {
    let mut resizes = ResizeInbox::new();
    assert_eq!(resizes.send(ResizeEvent { width: 800, height: 0 }), Ok(()));
    let mut config = WgpuConfig { width: 640, height: 480 };
    let mut cameras = vec![camera(None)];
    let applied = reconfigure_device_on_resize_system(&mut resizes, &mut config, &mut cameras);
    assert_eq!(
        applied,
        Err(ResizeError::EmptySurface(ResizeEvent { width: 800, height: 0 }))
    );
    assert_eq!(config, WgpuConfig { width: 640, height: 480 });
    assert_eq!(cameras[0].aspect, AspectRatio { width: 4, height: 3 });
}

#[test]
fn a_resize_without_width_fails_after_the_ones_before_it() {
    let mut resizes = ResizeInbox::new();
    assert_eq!(resizes.send(ResizeEvent { width: 320, height: 240 }), Ok(()));
    assert_eq!(resizes.send(ResizeEvent { width: 0, height: 600 }), Ok(()));
    assert_eq!(resizes.send(ResizeEvent { width: 1024, height: 768 }), Ok(()));
    let mut config = WgpuConfig { width: 640, height: 480 };
    let mut cameras = vec![camera(None), camera(None)];
    let applied = reconfigure_device_on_resize_system(&mut resizes, &mut config, &mut cameras);
    assert_eq!(
        applied,
        Err(ResizeError::EmptySurface(ResizeEvent { width: 0, height: 600 }))
    );
    assert_eq!(config, WgpuConfig { width: 320, height: 240 });
    assert_eq!(cameras[1].aspect, AspectRatio { width: 320, height: 240 });
    assert_eq!(resizes.drain(), vec![]);
}

#[test]
fn the_configuration_refuses_an_empty_surface() {
    let mut config = WgpuConfig { width: 640, height: 480 };
    assert_eq!(config.apply(ResizeEvent { width: 800, height: 450 }), Ok(()));
    assert_eq!(config, WgpuConfig { width: 800, height: 450 });
    let empty = ResizeEvent { width: 0, height: 0 };
    assert_eq!(config.apply(empty), Err(ResizeError::EmptySurface(empty)));
    assert_eq!(config, WgpuConfig { width: 800, height: 450 });
}

#[test]
fn the_inbox_hands_the_records_out_in_the_order_of_arrival() {
    let mut resizes = ResizeInbox::new();
    assert_eq!(resizes.drain(), vec![]);
    assert_eq!(resizes.send(ResizeEvent { width: 2, height: 1 }), Ok(()));
    assert_eq!(resizes.send(ResizeEvent { width: 1, height: 2 }), Ok(()));
    assert_eq!(
        resizes.drain(),
        vec![ResizeEvent { width: 2, height: 1 }, ResizeEvent { width: 1, height: 2 }]
    );
    assert_eq!(resizes.drain(), vec![]);
}

#[test]
fn flush_presents_every_outstanding_surface_and_clears_it() {
    let mut commands = CommandAggregator::new();
    assert_eq!(commands.send(CommandBufferFinishedEvent(1)), Ok(()));
    let mut cameras = vec![camera(Some("left")), camera(None), camera(Some("right"))];
    let actions = flush_render_system(&mut commands, &mut cameras);
    assert_eq!(steps(actions), vec![Ok(vec![1]), Err("left"), Err("right")]);
    assert!(cameras.iter().all(|camera| camera.output.is_none()));
    assert!(cameras.iter().all(|camera| camera.aspect == AspectRatio { width: 4, height: 3 }));
    let again = flush_render_system(&mut commands, &mut cameras);
    assert_eq!(steps(again), vec![Ok(vec![])]);
}

#[test]
fn a_surface_is_presented_even_when_nothing_was_drawn() {
    let mut commands = CommandAggregator::new();
    let mut cameras = vec![camera(Some("untouched"))];
    let actions = flush_render_system(&mut commands, &mut cameras);
    assert_eq!(steps(actions), vec![Ok(vec![]), Err("untouched")]);
    assert_eq!(cameras[0].output, None);
}

#[test]
fn the_submission_comes_before_every_present() {
    let mut commands = CommandAggregator::new();
    assert_eq!(commands.send(CommandBufferFinishedEvent(3)), Ok(()));
    assert_eq!(commands.send(CommandBufferFinishedEvent(1)), Ok(()));
    let mut cameras = vec![camera(Some("first")), camera(Some("second")), camera(Some("third"))];
    let actions = flush_render_system(&mut commands, &mut cameras);
    assert_eq!(
        steps(actions),
        vec![Ok(vec![3, 1]), Err("first"), Err("second"), Err("third")]
    );
}

#[test]
fn the_frame_configures_before_it_acquires_and_flushes_last() {
    let mut schedule = RenderSchedule::new();
    init_render_schedule(&mut schedule);
    SpritePlugin.build(&mut schedule);
    assert_eq!(schedule.len(), 4);
    let order = schedule.order();
    assert_eq!(
        systems(&order),
        vec![
            RECONFIGURE_DEVICE_ON_RESIZE_SYSTEM,
            PREPARE_RENDER_SYSTEM,
            DRAW_SPRITES_SYSTEM,
            FLUSH_RENDER_SYSTEM
        ]
    );
    assert_eq!(
        order[1],
        SystemEntry { system: PREPARE_RENDER_SYSTEM, stage: RenderStage::Prepare, chained: true }
    );
    assert_eq!(
        order[2],
        SystemEntry { system: DRAW_SPRITES_SYSTEM, stage: RenderStage::Render, chained: false }
    );
}

#[test]
fn the_stages_run_in_order_whatever_the_order_of_registration() {
    let mut schedule = RenderSchedule::new();
    schedule.add_system(20, RenderStage::Flush);
    schedule.add_system(10, RenderStage::Render);
    schedule.add_chain(&vec![1, 2, 3], RenderStage::Prepare);
    schedule.add_system(11, RenderStage::Render);
    schedule.add_system(21, RenderStage::Flush);
    schedule.add_chain(&vec![12, 13], RenderStage::Render);
    schedule.add_chain(&vec![], RenderStage::Render);
    assert_eq!(systems(&schedule.order()), vec![1, 2, 3, 10, 11, 12, 13, 20, 21]);
    let chained: Vec<bool> = schedule.order().iter().map(|entry| entry.chained).collect();
    assert_eq!(chained, vec![false, true, true, false, false, false, true, false, false]);
}

#[test]
fn an_empty_schedule_runs_nothing() {
    let schedule = RenderSchedule::new();
    assert_eq!(schedule.len(), 0);
    assert!(schedule.order().is_empty());
}

#[test]
fn the_stages_follow_one_another() {
    assert_eq!(RenderStage::Prepare.index(), 0);
    assert_eq!(RenderStage::Render.index(), 1);
    assert_eq!(RenderStage::Flush.index(), 2);
    assert_eq!(RenderStage::Prepare.next(), Some(RenderStage::Render));
    assert_eq!(RenderStage::Render.next(), Some(RenderStage::Flush));
    assert_eq!(RenderStage::Flush.next(), None);
}

#[test]
fn a_frame_goes_from_idle_through_the_stages_back_to_idle() {
    let mut phase = FramePhase::Idle;
    assert_eq!(phase.stage(), None);
    phase = phase.advance();
    assert_eq!(phase, FramePhase::Preparing);
    assert_eq!(phase.stage(), Some(RenderStage::Prepare));
    phase = phase.advance();
    assert_eq!(phase, FramePhase::Rendering);
    assert_eq!(phase.stage(), Some(RenderStage::Render));
    phase = phase.advance();
    assert_eq!(phase, FramePhase::Flushing);
    assert_eq!(phase.stage(), Some(RenderStage::Flush));
    phase = phase.advance();
    assert_eq!(phase, FramePhase::Idle);
}

#[test]
fn a_frame_hands_out_its_systems_stage_by_stage() {
    let mut schedule = RenderSchedule::new();
    schedule.add_system(9, RenderStage::Flush);
    init_render_schedule(&mut schedule);
    SpritePlugin.build(&mut schedule);
    let mut frame = FrameRun::begin(&schedule);
    assert_eq!(frame.phase(), FramePhase::Idle);
    let mut seen = Vec::new();
    while let Some(entry) = frame.next_system() {
        assert_eq!(frame.phase().stage(), Some(entry.stage));
        seen.push((entry.system, frame.phase()));
    }
    assert_eq!(
        seen,
        vec![
            (RECONFIGURE_DEVICE_ON_RESIZE_SYSTEM, FramePhase::Preparing),
            (PREPARE_RENDER_SYSTEM, FramePhase::Preparing),
            (DRAW_SPRITES_SYSTEM, FramePhase::Rendering),
            (9, FramePhase::Flushing),
            (FLUSH_RENDER_SYSTEM, FramePhase::Flushing),
        ]
    );
    assert_eq!(frame.phase(), FramePhase::Idle);
    assert_eq!(frame.next_system(), None);
    assert_eq!(frame.phase(), FramePhase::Idle);
}

#[test]
fn a_frame_without_systems_is_over_at_once() {
    let schedule = RenderSchedule::new();
    let mut frame = FrameRun::begin(&schedule);
    assert_eq!(frame.next_system(), None);
    assert_eq!(frame.phase(), FramePhase::Idle);
}

#[test]
fn a_stage_without_systems_is_passed_over() {
    let mut schedule = RenderSchedule::new();
    schedule.add_system(1, RenderStage::Prepare);
    schedule.add_system(2, RenderStage::Flush);
    let mut frame = FrameRun::begin(&schedule);
    assert_eq!(frame.next_system().map(|entry| entry.system), Some(1));
    assert_eq!(frame.phase(), FramePhase::Preparing);
    assert_eq!(frame.next_system().map(|entry| entry.system), Some(2));
    assert_eq!(frame.phase(), FramePhase::Flushing);
    assert_eq!(FramePhase::for_stage(RenderStage::Render), FramePhase::Rendering);
}
