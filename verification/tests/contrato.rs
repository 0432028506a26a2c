use pomodoro::atividade::Atividade;
use pomodoro::ciclo_em_execucao::CicloEmExecucao;
use pomodoro::contadores_do_dia::ContadoresDoDia;
use pomodoro::contrato::{
    AtividadeDoPlano, Etapa, EstadoDaTela, EstadoDoHistorico, EstadoDoPlano, ModoDeDuracao, SessaoDoPlano,
};
use pomodoro::data::Data;
use pomodoro::plano_do_ciclo::PlanoDoCiclo;
use pomodoro::quantidade_de_sessoes::QuantidadeDeSessoes;
use pomodoro::sessao::Sessao;
use pomodoro::tempo::{Duracao, Instante};
use pomodoro::url_de_atividade::UrlDeAtividade;

fn total(quantidade: u8) -> QuantidadeDeSessoes {
    QuantidadeDeSessoes::nova(quantidade).expect("teste")
}

#[test]
fn estado_ocioso_nao_tem_prazo() {
    let ciclo = CicloEmExecucao::novo(total(4), Duracao::de_minutos(25), Duracao::de_minutos(5), true);
    let estado = EstadoDaTela::de(&ciclo, Instante::desde_epoca_ms(0));
    assert_eq!(estado.prazo_epoca_ms, None);
    assert!(!estado.rodando);
    assert_eq!(estado.restante_ms, Duracao::de_minutos(25).em_ms());
    assert!(estado.iniciar_automaticamente);
}

#[test]
fn estado_correndo_carrega_o_prazo_absoluto() {
    let ciclo = CicloEmExecucao::novo(total(4), Duracao::de_minutos(25), Duracao::de_minutos(5), true)
        .alternar_execucao(Instante::desde_epoca_ms(1_000));
    let estado = EstadoDaTela::de(&ciclo, Instante::desde_epoca_ms(1_000));
    assert_eq!(estado.prazo_epoca_ms, Some(1_000 + Duracao::de_minutos(25).em_ms()));
    assert!(estado.rodando);
}

#[test]
fn estado_da_tela_na_pausa_mostra_a_etapa_e_a_duracao_da_pausa() {
    let ciclo = CicloEmExecucao::novo(total(4), Duracao::de_minutos(25), Duracao::de_minutos(5), false)
        .avancar(Instante::desde_epoca_ms(0));
    let estado = EstadoDaTela::de(&ciclo, Instante::desde_epoca_ms(60_000));
    assert_eq!(estado.etapa, Etapa::Pausa);
    assert_eq!(estado.numero_sessao, 1);
    assert_eq!(estado.total_sessoes, 4);
    assert_eq!(estado.duracao_total_ms, 300_000);
    assert_eq!(estado.restante_ms, 240_000);
    assert!(!estado.iniciar_automaticamente);
}

#[test]
fn estado_do_historico_reflete_os_contadores_do_dia() {
    let dia = ContadoresDoDia::reconstruir(Data::de(2026, 8, 23), 2, Duracao::de_minutos(37), 0);
    let estado = EstadoDoHistorico::de(dia);
    assert_eq!(estado.sessoes_concluidas_hoje, 2);
    assert_eq!(estado.tempo_de_foco_hoje_ms, Duracao::de_minutos(37).em_ms());
}

#[test]
fn estado_do_plano_reflete_modo_duracoes_globais_e_plano_individual() {
    let plano = PlanoDoCiclo::novo(total(3), Duracao::de_minutos(25), Duracao::de_minutos(5));
    let estado = EstadoDoPlano::de(&plano);
    assert_eq!(estado.modo, ModoDeDuracao::Global);
    assert_eq!(estado.total_sessoes, 3);
    assert_eq!(estado.duracao_global_foco_ms, Duracao::de_minutos(25).em_ms());
    assert_eq!(estado.plano_individual.len(), 3);
    assert_eq!(estado.plano_individual[0].foco_ms, Duracao::de_minutos(25).em_ms());
    assert_eq!(estado.atividade_global.rotulo, "atividade");
    assert_eq!(estado.plano_individual[0].atividade.rotulo, "atividade");
}

#[test]
fn atividade_do_plano_expoe_nome_url_e_rotulo() {
    let url = UrlDeAtividade::nova("https://www.exemplo.com").expect("teste");
    let atividade = Atividade::nova(None, Some(url));
    let dto = AtividadeDoPlano::de(&atividade);
    assert_eq!(dto.nome, None);
    assert_eq!(dto.url, Some("https://www.exemplo.com/".to_string()));
    assert_eq!(dto.rotulo, "exemplo.com");
}

#[test]
fn sessao_do_plano_expoe_as_duracoes_em_milissegundos() {
    let sessao = Sessao::nova(Duracao::de_minutos(30), Duracao::de_minutos(10));
    let dto = SessaoDoPlano::de(&sessao);
    assert_eq!(dto.foco_ms, 1_800_000);
    assert_eq!(dto.pausa_ms, 600_000);
    assert_eq!(dto.atividade.rotulo, "atividade");
}

#[test]
fn etapa_e_modo_convertem_entre_dominio_e_interface() {
    assert_eq!(Etapa::from(pomodoro::etapa::Etapa::Pausa), Etapa::Pausa);
    assert_eq!(Etapa::from(pomodoro::etapa::Etapa::Foco), Etapa::Foco);
    assert_eq!(
        ModoDeDuracao::from(pomodoro::modo_de_duracao::ModoDeDuracao::Individual),
        ModoDeDuracao::Individual
    );
    assert_eq!(
        pomodoro::modo_de_duracao::ModoDeDuracao::from(ModoDeDuracao::Global),
        pomodoro::modo_de_duracao::ModoDeDuracao::Global
    );
}
