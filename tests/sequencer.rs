use assistant::message::{
    AssistConfig, AudioInConfig, AudioOutConfig, DeviceConfig, DialogStateIn, OutboundMessage,
};
use assistant::sequencer::{build_requests, RequestSequencer};

fn sample_config() -> AssistConfig {
    AssistConfig {
        audio_in_config: AudioInConfig { encoding: 1, sample_rate_hertz: 16_000 },
        audio_out_config: AudioOutConfig { encoding: 1, sample_rate_hertz: 16_000, volume_percentage: 0 },
        dialog_state_in: DialogStateIn {
            conversation_state: vec![],
            language_code: "en-US".to_string(),
            device_location: None,
            is_new_conversation: true,
        },
        device_config: DeviceConfig {
            device_id: "unknown".to_string(),
            device_model_id: "unknown".to_string(),
        },
        return_debug_info: false,
        screen_mode: 0,
    }
}

fn source(len: usize) -> Vec<u8> {
    (0..len).map(|i| (i % 251) as u8).collect()
}

fn chunk_lengths(msgs: &[OutboundMessage]) -> Vec<usize> {
    msgs[1..]
        .iter()
        .map(|m| match m {
            OutboundMessage::AudioChunk(b) => b.len(),
            OutboundMessage::Configuration(_) => panic!("configuration after the first message"),
        })
        .collect()
}

#[test]
fn thousand_bytes_in_chunks_of_512() {
    let src = source(1000);
    let msgs = build_requests(sample_config(), &src, 512);
    assert_eq!(msgs.len(), 3);
    assert_eq!(msgs[0], OutboundMessage::Configuration(sample_config()));
    assert_eq!(msgs[1], OutboundMessage::AudioChunk(src[..512].to_vec()));
    assert_eq!(msgs[2], OutboundMessage::AudioChunk(src[512..].to_vec()));
    assert_eq!(chunk_lengths(&msgs), vec![512, 488]);
}

#[test]
fn empty_source_gives_configuration_alone() {
    let msgs = build_requests(sample_config(), &[], 512);
    assert_eq!(msgs, vec![OutboundMessage::Configuration(sample_config())]);
}

#[test]
fn exact_multiple_ends_without_an_empty_chunk() {
    let src = source(1024);
    let msgs = build_requests(sample_config(), &src, 512);
    assert_eq!(chunk_lengths(&msgs), vec![512, 512]);
}

#[test]
fn chunk_count_is_ceiling_of_length_over_size() {
    for len in 0..40usize {
        for size in 1..9usize {
            let src = source(len);
            let msgs = build_requests(sample_config(), &src, size);
            let lengths = chunk_lengths(&msgs);
            assert_eq!(lengths.len(), (len + size - 1) / size);
            let joined: Vec<u8> = msgs[1..]
                .iter()
                .flat_map(|m| match m {
                    OutboundMessage::AudioChunk(b) => b.clone(),
                    OutboundMessage::Configuration(_) => vec![],
                })
                .collect();
            assert_eq!(joined, src);
            if len > 0 {
                let last = *lengths.last().unwrap();
                assert_eq!(last, if len % size == 0 { size } else { len % size });
                assert!(lengths[..lengths.len() - 1].iter().all(|&l| l == size));
            }
        }
    }
}

#[test]
fn two_runs_over_the_same_source_agree() {
    let src = source(777);
    let first = build_requests(sample_config(), &src, 100);
    let second = build_requests(sample_config(), &src, 100);
    assert_eq!(first, second);
}

#[test]
fn lazy_sequencer_stops_at_first_short_read() {
    let (mut seq, first) = RequestSequencer::begin(sample_config(), 4);
    assert_eq!(first, OutboundMessage::Configuration(sample_config()));
    assert_eq!(seq.read_limit(), 4);
    assert!(!seq.is_finished());
    assert_eq!(seq.accept_read(vec![1, 2, 3, 4]), Some(OutboundMessage::AudioChunk(vec![1, 2, 3, 4])));
    assert!(!seq.is_finished());
    assert_eq!(seq.accept_read(vec![5, 6]), Some(OutboundMessage::AudioChunk(vec![5, 6])));
    assert!(seq.is_finished());
}

#[test]
fn lazy_sequencer_empty_read_ends_without_message() {
    let (mut seq, _) = RequestSequencer::begin(sample_config(), 4);
    assert_eq!(seq.accept_read(vec![]), None);
    assert!(seq.is_finished());
}

#[test]
fn single_byte_chunks() {
    let msgs = build_requests(sample_config(), &[9, 8, 7], 1);
    assert_eq!(
        msgs[1..].to_vec(),
        vec![
            OutboundMessage::AudioChunk(vec![9]),
            OutboundMessage::AudioChunk(vec![8]),
            OutboundMessage::AudioChunk(vec![7]),
        ]
    );
}
