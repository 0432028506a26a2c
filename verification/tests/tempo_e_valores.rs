use pomodoro::ciclo::NumeroDeSessao;
use pomodoro::data::Data;
use pomodoro::duracao_de_etapa::DuracaoDeEtapaInvalida;
use pomodoro::etapa::Etapa;
use pomodoro::modo_de_duracao::ModoDeDuracao;
use pomodoro::quantidade_de_sessoes::{QuantidadeDeSessoes, QuantidadeDeSessoesInvalida};
use pomodoro::relogio::Relogio;
use pomodoro::som_de_alarme::SomDeAlarme;
use pomodoro::tempo::{Duracao, DuracaoInvalida, Instante};
use std::sync::atomic::{AtomicI64, Ordering};
use std::sync::Mutex;

/// Relógio de teste: nenhum teste espera 25 minutos de verdade.
struct RelogioFake {
    epoca_ms: AtomicI64,
    hoje: Mutex<Data>,
}

impl RelogioFake {
    fn parado_em(instante: Instante) -> Self {
        Self {
            epoca_ms: AtomicI64::new(instante.epoca_ms()),
            hoje: Mutex::new(Data::de(2026, 1, 1)),
        }
    }

    fn avancar(&self, quanto: Duracao) {
        self.epoca_ms.fetch_add(quanto.em_ms(), Ordering::SeqCst);
    }
}

impl Relogio for RelogioFake {
    fn agora(&self) -> Instante {
        Instante::desde_epoca_ms(self.epoca_ms.load(Ordering::SeqCst))
    }

    fn hoje(&self) -> Data {
        *self.hoje.lock().expect("lock do dia fake")
    }
}

fn total(quantidade: u8) -> QuantidadeDeSessoes {
    QuantidadeDeSessoes::nova(quantidade).expect("teste")
}

#[test]
fn decorrido_conta_o_intervalo_entre_dois_instantes() {
    let inicio = Instante::desde_epoca_ms(1_000);
    let fim = Instante::desde_epoca_ms(4_500);
    assert_eq!(fim.decorrido_desde(inicio), Duracao::de_ms(3_500).expect("teste"));
}

#[test]
fn relogio_andando_para_tras_produz_duracao_zero_e_nao_panico() {
    let inicio = Instante::desde_epoca_ms(9_000);
    let fim = Instante::desde_epoca_ms(1_000);
    assert_eq!(fim.decorrido_desde(inicio), Duracao::zero());
}

#[test]
fn duracao_negativa_e_erro_que_nomeia_o_valor_ofensor() {
    let erro = Duracao::de_ms(-7).expect_err("teste");
    assert_eq!(erro, DuracaoInvalida::Negativa { recebido: -7 });
    assert_eq!(erro.mensagem(), "duracao negativa: -7ms, esperado >= 0");
}

#[test]
fn minutos_viram_milissegundos() {
    assert_eq!(Duracao::de_minutos(25).em_ms(), 1_500_000);
}

#[test]
fn mais_soma_duas_duracoes() {
    assert_eq!(Duracao::de_minutos(3).mais(Duracao::de_minutos(4)), Duracao::de_minutos(7));
}

#[test]
fn menos_subtrai_sem_ir_abaixo_de_zero() {
    assert_eq!(Duracao::de_minutos(10).menos(Duracao::de_minutos(4)), Duracao::de_minutos(6));
    assert_eq!(Duracao::de_minutos(4).menos(Duracao::de_minutos(10)), Duracao::zero());
}

#[test]
fn instante_mais_duracao_e_o_prazo_em_milissegundos() {
    let prazo = Instante::desde_epoca_ms(1_000).mais(Duracao::de_minutos(1));
    assert_eq!(prazo.epoca_ms(), 61_000);
}

#[test]
fn duracao_esgotada_so_em_zero() {
    assert!(Duracao::zero().esgotada());
    assert!(!Duracao::de_ms(1).expect("teste").esgotada());
}

#[test]
fn foco_alterna_para_pausa() {
    assert_eq!(Etapa::Foco.alternar(), Etapa::Pausa);
}

#[test]
fn pausa_alterna_para_foco() {
    assert_eq!(Etapa::Pausa.alternar(), Etapa::Foco);
}

#[test]
fn alternar_duas_vezes_volta_a_etapa_de_partida() {
    assert_eq!(Etapa::Foco.alternar().alternar(), Etapa::Foco);
    assert_eq!(Etapa::Pausa.alternar().alternar(), Etapa::Pausa);
}

#[test]
fn primeira_sessao_e_um() {
    assert_eq!(NumeroDeSessao::primeira().valor(), 1);
}

#[test]
fn sessao_intermediaria_avanca_em_um() {
    assert_eq!(NumeroDeSessao::primeira().proxima(total(4)).valor(), 2);
}

#[test]
fn ultima_sessao_do_ciclo_volta_para_a_primeira() {
    let ultima = NumeroDeSessao::de(4);
    assert_eq!(ultima.proxima(total(4)).valor(), 1);
}

#[test]
fn sessao_alem_do_total_volta_para_dentro_do_ciclo() {
    assert_eq!(NumeroDeSessao::de(7).proxima(total(4)).valor(), 4);
}

#[test]
fn variantes_sao_distintas() {
    assert_ne!(ModoDeDuracao::Global, ModoDeDuracao::Individual);
}

#[test]
fn padrao_e_classico() {
    assert_eq!(SomDeAlarme::default(), SomDeAlarme::Classico);
}

#[test]
fn datas_iguais_sao_iguais_e_comparaveis_por_ordem_cronologica() {
    assert_eq!(Data::de(2026, 8, 23), Data::de(2026, 8, 23));
    assert!(Data::de(2026, 8, 23) < Data::de(2026, 8, 24));
    assert!(Data::de(2026, 8, 31) < Data::de(2026, 9, 1));
}

#[test]
fn data_guarda_os_componentes() {
    let data = Data::de(2026, 8, 23);
    assert_eq!((data.ano(), data.mes(), data.dia()), (2026, 8, 23));
}

#[test]
fn zero_e_invalido() {
    let erro = QuantidadeDeSessoes::nova(0).expect_err("teste");
    assert_eq!(erro, QuantidadeDeSessoesInvalida::ForaDoIntervalo { recebido: 0 });
    assert_eq!(erro.mensagem(), "quantidade de sessoes invalida: 0, esperado entre 1 e 24");
}

#[test]
fn vinte_e_cinco_e_invalido() {
    let erro = QuantidadeDeSessoes::nova(25).expect_err("teste");
    assert_eq!(erro, QuantidadeDeSessoesInvalida::ForaDoIntervalo { recebido: 25 });
}

#[test]
fn borda_inferior_um_e_valida() {
    assert_eq!(QuantidadeDeSessoes::nova(1).expect("teste").valor(), 1);
}

#[test]
fn borda_superior_vinte_e_quatro_e_valida() {
    assert_eq!(QuantidadeDeSessoes::nova(24).expect("teste").valor(), 24);
}

#[test]
fn foco_borda_inferior_e_superior_sao_validas() {
    assert!(Duracao::de_minutos_de_foco(5).is_ok());
    assert!(Duracao::de_minutos_de_foco(180).is_ok());
}

#[test]
fn foco_fora_do_intervalo_e_invalido() {
    let erro = Duracao::de_minutos_de_foco(0).expect_err("teste");
    assert_eq!(erro, DuracaoDeEtapaInvalida::Foco { recebido: 0 });
    assert!(Duracao::de_minutos_de_foco(185).is_err());
}

#[test]
fn foco_fora_do_passo_de_cinco_e_invalido() {
    let erro = Duracao::de_minutos_de_foco(7).expect_err("teste");
    assert_eq!(erro, DuracaoDeEtapaInvalida::Foco { recebido: 7 });
}

#[test]
fn pausa_borda_inferior_e_superior_sao_validas() {
    assert!(Duracao::de_minutos_de_pausa(1).is_ok());
    assert!(Duracao::de_minutos_de_pausa(60).is_ok());
}

#[test]
fn pausa_fora_do_intervalo_e_invalida() {
    let erro = Duracao::de_minutos_de_pausa(0).expect_err("teste");
    assert_eq!(erro, DuracaoDeEtapaInvalida::Pausa { recebido: 0 });
    assert!(Duracao::de_minutos_de_pausa(65).is_err());
}

#[test]
fn duracao_de_etapa_valida_vira_milissegundos() {
    assert_eq!(Duracao::de_minutos_de_foco(25).expect("teste").em_ms(), 1_500_000);
    assert_eq!(Duracao::de_minutos_de_pausa(5).expect("teste").em_ms(), 300_000);
}

#[test]
fn relogio_fake_devolve_o_instante_que_mandarem() {
    let relogio = RelogioFake::parado_em(Instante::desde_epoca_ms(42));
    assert_eq!(relogio.agora(), Instante::desde_epoca_ms(42));
}

#[test]
fn avancar_move_o_relogio_sem_esperar_tempo_real() {
    let relogio = RelogioFake::parado_em(Instante::desde_epoca_ms(0));
    relogio.avancar(Duracao::de_minutos(25));
    assert_eq!(relogio.agora().epoca_ms(), 1_500_000);
}

#[test]
fn mensagens_das_duracoes_de_etapa_invalidas() {
    assert_eq!(
        DuracaoDeEtapaInvalida::Foco { recebido: 7 }.mensagem(),
        "duracao de foco invalida: 7min, esperado entre 5 e 180 em passos de 5"
    );
    assert_eq!(
        DuracaoDeEtapaInvalida::Pausa { recebido: 65 }.mensagem(),
        "duracao de pausa invalida: 65min, esperado entre 1 e 60"
    );
}

#[test]
fn datas_comparam_por_ano_depois_mes_depois_dia() {
    assert_eq!(Data::de(2025, 12, 31).partial_cmp(&Data::de(2026, 1, 1)), Some(std::cmp::Ordering::Less));
    assert_eq!(Data::de(2026, 9, 1).partial_cmp(&Data::de(2026, 8, 31)), Some(std::cmp::Ordering::Greater));
    assert_eq!(Data::de(2026, 8, 23).partial_cmp(&Data::de(2026, 8, 23)), Some(std::cmp::Ordering::Equal));
    assert!(Data::de(2026, 8, 23) > Data::de(2026, 8, 22));
}
