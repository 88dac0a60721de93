use generative::mesh::read_status;
use generative::panorama::{convert_to_cubemap, PanoramaFit};
use generative::pipeline::{MeshAction, MeshEvent, MeshPipeline, MeshStage, PollPolicy};
use generative::prop::{PropBoard, PropResolution};
use generative::raster::Raster;
use generative::supervisor::{AssetLoad, GenerationStatus, Supervisor, Transition};
use generative::{
    GeneratedImage, GenerationPrompt, ImageData, ImageGenerationResult, ImageOutputFormat,
};
use image::{ImageFormat, Rgba, RgbaImage};
use std::io::Cursor;

fn panorama_png(width: u32, height: u32) -> Vec<u8> {
    let image = RgbaImage::from_pixel(width, height, Rgba([90, 120, 160, 255]));
    let mut bytes = Cursor::new(Vec::new());
    image.write_to(&mut bytes, ImageFormat::Png).unwrap();
    bytes.into_inner()
}

fn top_left(image: &Raster, _dx: i64, _dy: i64, _dz: i64) -> [u8; 4] {
    image.pixel(0, 0)
}

#[test]
fn misty_pine_forest_enters_the_level_once() {
    let prompt = GenerationPrompt("a misty pine forest".to_string());
    let mut supervisor: Supervisor<String, String> = Supervisor::new();
    let (ground, sky) = supervisor.start_session();

    let request = prompt.sky_request();
    assert!(request.prompt.ends_with("a misty pine forest"));
    assert_eq!(request.output_format, ImageOutputFormat::Url);
    let answer = ImageGenerationResult {
        images: vec![GeneratedImage {
            data: ImageData::Url("https://images.example/panorama.png".to_string()),
            revised_prompt: None,
        }],
        created_at: Some(1),
    };
    assert_eq!(answer.first_image_url().unwrap(), "https://images.example/panorama.png");

    let (cubemap, fit) = convert_to_cubemap(&panorama_png(1024, 512), &top_left).unwrap();
    assert_eq!(fit, PanoramaFit::Exact);
    assert_eq!(cubemap.faces.len(), 6);
    assert_eq!(cubemap.face_size, 512);
    for face in &cubemap.faces {
        assert_eq!(face.len(), 512 * 512 * 4);
        assert_eq!(&face[..4], &[90, 120, 160, 255]);
    }

    assert!(supervisor.complete_sky(sky, Ok("cubemaps/generated/sky.ktx2".to_string())));
    assert!(matches!(supervisor.sky, GenerationStatus::Succeeded(_)));
    let loads = vec![AssetLoad::Loaded; 6];
    assert!(matches!(supervisor.conclude(&loads), Transition::Stay));
    assert!(supervisor.complete_ground(ground, Ok("textures/generated/ground.png".to_string())));
    let mut activations = 0;
    for _ in 0..5 {
        if matches!(supervisor.conclude(&loads), Transition::Activate) {
            activations += 1;
        }
    }
    assert_eq!(activations, 1);
}

#[test]
fn content_policy_violation_splices_nothing() {
    let mut board: PropBoard<u8> = PropBoard::new();
    let job = board.submit("something forbidden".to_string(), 900, 0);

    let (pipeline, _) = MeshPipeline::begin("something forbidden", PollPolicy::unbounded());
    let (pipeline, _) = pipeline.step(MeshEvent::Created(Some("preview-task".to_string())));
    let report: serde_json::Value = serde_json::from_str(
        r#"{"id":"preview-task","status":"FAILED","failure_reason":"content policy violation"}"#,
    )
    .unwrap();
    let (pipeline, action) = pipeline.step(MeshEvent::Status(read_status(&report)));
    assert_eq!(pipeline.stage, MeshStage::Failed);
    let error = match action {
        MeshAction::Finish(Err(error)) => error.message(),
        other => panic!("unexpected action {:?}", other),
    };
    assert!(error.contains("content policy violation"));

    match board.resolve(job, Err(error)) {
        PropResolution::Discard { job, reason } => {
            assert_eq!(job.placeholder, 900);
            assert!(reason.contains("content policy violation"));
        }
        other => panic!("unexpected resolution {:?}", other),
    }
    assert!(board.jobs.is_empty());
}
