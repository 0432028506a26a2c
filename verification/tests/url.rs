use pomodoro::destino_de_carregamento::DestinoDeCarregamento;
use pomodoro::url_analisada::UrlAnalisada;
use pomodoro::url_de_atividade::{UrlDeAtividade, UrlDeAtividadeInvalida};
use pomodoro::video_incorporado::{host_sem_www, url_incorporada};

fn embed(bruta: &str) -> Option<String> {
    url_incorporada(&UrlAnalisada::interpretar(bruta).expect("teste")).map(|u| u.como_str().to_string())
}

#[test]
fn http_e_https_sao_validos() {
    assert!(UrlDeAtividade::nova("http://exemplo.com").is_ok());
    assert!(UrlDeAtividade::nova("https://exemplo.com").is_ok());
}

#[test]
fn esquema_file_e_rejeitado_nomeando_o_esquema() {
    let erro = UrlDeAtividade::nova("file:///etc/passwd").expect_err("teste");
    assert_eq!(erro, UrlDeAtividadeInvalida::EsquemaNaoPermitido { esquema: "file".to_string() });
}

#[test]
fn esquema_javascript_e_rejeitado_nomeando_o_esquema() {
    let erro = UrlDeAtividade::nova("javascript:alert(1)").expect_err("teste");
    assert_eq!(erro, UrlDeAtividadeInvalida::EsquemaNaoPermitido { esquema: "javascript".to_string() });
}

#[test]
fn esquema_data_e_rejeitado_nomeando_o_esquema() {
    let erro = UrlDeAtividade::nova("data:text/plain,oi").expect_err("teste");
    assert_eq!(erro, UrlDeAtividadeInvalida::EsquemaNaoPermitido { esquema: "data".to_string() });
}

#[test]
fn string_sem_forma_de_url_e_invalida() {
    let erro = UrlDeAtividade::nova("nao e uma url").expect_err("teste");
    assert_eq!(erro, UrlDeAtividadeInvalida::NaoEUmaUrl { recebido: "nao e uma url".to_string() });
}

#[test]
fn mensagens_das_urls_invalidas() {
    assert_eq!(
        UrlDeAtividadeInvalida::NaoEUmaUrl { recebido: "x y".to_string() }.mensagem(),
        "url de atividade invalida: 'x y' nao e uma url"
    );
    assert_eq!(
        UrlDeAtividadeInvalida::EsquemaNaoPermitido { esquema: "ftp".to_string() }.mensagem(),
        "esquema de url nao permitido: 'ftp', esperado http ou https"
    );
}

#[test]
fn url_valida_guarda_o_texto_normalizado() {
    let url = UrlDeAtividade::nova("https://www.exemplo.com").expect("teste");
    assert_eq!(url.como_str(), "https://www.exemplo.com/");
    assert!(url.esquema_e_http());
}

#[test]
fn hostname_sem_www_remove_apenas_o_prefixo() {
    let url = UrlDeAtividade::nova("https://www.exemplo.com/pagina").expect("teste");
    assert_eq!(url.hostname_sem_www(), Some("exemplo.com"));
}

#[test]
fn hostname_sem_www_preserva_host_sem_o_prefixo() {
    let url = UrlDeAtividade::nova("https://musica.exemplo.com").expect("teste");
    assert_eq!(url.hostname_sem_www(), Some("musica.exemplo.com"));
}

#[test]
fn host_sem_www_so_tira_o_prefixo_inteiro() {
    assert_eq!(host_sem_www("www.exemplo.com"), "exemplo.com");
    assert_eq!(host_sem_www("wwwexemplo.com"), "wwwexemplo.com");
}

#[test]
fn destino_de_carregamento_de_video_do_youtube_e_video_com_embed() {
    let url = UrlDeAtividade::nova("https://www.youtube.com/watch?v=dQw4w9WgXcQ").expect("teste");
    assert_eq!(
        url.destino_de_carregamento(),
        DestinoDeCarregamento::Video(
            UrlAnalisada::interpretar("https://www.youtube.com/embed/dQw4w9WgXcQ").expect("teste")
        )
    );
}

#[test]
fn destino_de_carregamento_de_site_de_leitura_e_direto() {
    let url = UrlDeAtividade::nova("https://akitaonrails.com/algum-post").expect("teste");
    assert_eq!(url.destino_de_carregamento(), DestinoDeCarregamento::Direto(url.url().clone()));
}

#[test]
fn url_interpretada_expoe_esquema_host_e_query() {
    let url = UrlAnalisada::interpretar("https://Music.YouTube.com/watch?v=abc&list=xyz").expect("teste");
    assert_eq!(url.esquema(), "https");
    assert_eq!(url.host_str(), Some("music.youtube.com"));
    assert_eq!(url.valor_da_query("list"), Some("xyz"));
    assert_eq!(url.valor_da_query("nada"), None);
    assert_eq!(url.segmentos_do_caminho(), Some(vec!["watch".to_string()]));
    assert!(UrlAnalisada::interpretar("sem esquema").is_none());
}

#[test]
fn youtube_watch_vira_embed() {
    assert_eq!(
        embed("https://www.youtube.com/watch?v=dQw4w9WgXcQ"),
        Some("https://www.youtube.com/embed/dQw4w9WgXcQ".to_string())
    );
}

#[test]
fn youtube_watch_sem_www_vira_embed() {
    assert_eq!(
        embed("https://youtube.com/watch?v=dQw4w9WgXcQ"),
        Some("https://www.youtube.com/embed/dQw4w9WgXcQ".to_string())
    );
}

#[test]
fn youtube_mobile_vira_embed() {
    assert_eq!(
        embed("https://m.youtube.com/watch?v=dQw4w9WgXcQ"),
        Some("https://www.youtube.com/embed/dQw4w9WgXcQ".to_string())
    );
}

#[test]
fn youtu_be_vira_embed() {
    assert_eq!(
        embed("https://youtu.be/dQw4w9WgXcQ"),
        Some("https://www.youtube.com/embed/dQw4w9WgXcQ".to_string())
    );
}

#[test]
fn youtube_shorts_vira_embed() {
    assert_eq!(
        embed("https://www.youtube.com/shorts/dQw4w9WgXcQ"),
        Some("https://www.youtube.com/embed/dQw4w9WgXcQ".to_string())
    );
}

#[test]
fn youtube_music_watch_vira_embed() {
    assert_eq!(
        embed("https://music.youtube.com/watch?v=dQw4w9WgXcQ&list=xyz"),
        Some("https://www.youtube.com/embed/dQw4w9WgXcQ".to_string())
    );
}

#[test]
fn youtube_sem_id_de_video_fica_none() {
    assert_eq!(embed("https://www.youtube.com/playlist?list=abc"), None);
    assert_eq!(embed("https://www.youtube.com/"), None);
}

#[test]
fn vimeo_nao_e_reconhecido() {
    assert_eq!(embed("https://vimeo.com/76979871"), None);
}

#[test]
fn site_de_leitura_fica_none() {
    assert_eq!(embed("https://akitaonrails.com/algum-post"), None);
}

fn partes(texto: &str, esquema: &str, host: Option<&str>, caminho: &str, pares: &[(&str, &str)]) -> UrlAnalisada {
    UrlAnalisada::de_partes(
        texto.to_string(),
        esquema.to_string(),
        host.map(str::to_string),
        caminho.to_string(),
        pares.iter().map(|(k, v)| (k.to_string(), v.to_string())).collect(),
    )
}

#[test]
fn de_url_aceita_http_e_https_dados_pelas_partes() {
    let url = partes("https://exemplo.com/", "https", Some("exemplo.com"), "/", &[]);
    let aceita = UrlDeAtividade::de_url(url).expect("https e permitido");
    assert_eq!(aceita.como_str(), "https://exemplo.com/");
    assert!(UrlDeAtividade::de_url(partes("http://a.b/", "http", Some("a.b"), "/", &[])).is_ok());
}

#[test]
fn de_url_recusa_outro_esquema_nomeando_o() {
    let erro = UrlDeAtividade::de_url(partes("ftp://a.b/", "ftp", Some("a.b"), "/", &[])).expect_err("ftp recusado");
    assert_eq!(erro, UrlDeAtividadeInvalida::EsquemaNaoPermitido { esquema: "ftp".to_string() });
}

#[test]
fn embed_a_partir_das_partes_da_url() {
    let watch = partes(
        "https://m.youtube.com/watch?v=abc123",
        "https",
        Some("m.youtube.com"),
        "/watch",
        &[("v", "abc123")],
    );
    assert_eq!(
        url_incorporada(&watch).map(|u| u.como_str().to_string()),
        Some("https://www.youtube.com/embed/abc123".to_string())
    );
    let curta = partes("https://youtu.be/xyz", "https", Some("youtu.be"), "/xyz", &[]);
    assert_eq!(
        url_incorporada(&curta).map(|u| u.como_str().to_string()),
        Some("https://www.youtube.com/embed/xyz".to_string())
    );
    let outro = partes("https://vimeo.com/1", "https", Some("vimeo.com"), "/1", &[]);
    assert_eq!(url_incorporada(&outro), None);
}
